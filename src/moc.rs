use crate::command::texts;
use crate::common::{MocControl, MocError, MocInfo, MocSource};
use vstd::prelude::*;

verus! {

/// The path of the `mocp` program through which the server is reached.
pub struct Moc {
    pub moc_path: String,
}

impl Moc {
    pub fn new(moc_path: String) -> (r: Moc)
        ensures
            r.moc_path@ == moc_path@,
    {
        Moc { moc_path }
    }

    /// The arguments of `mocp` that ask for the status report.
    pub fn info_arguments() -> (r: Vec<String>)
        ensures
            texts(r@) == seq!["--info"@],
    {
        let mut v: Vec<String> = Vec::new();
        v.push(String::from_str("--info"));
        assert(texts(v@) =~= seq!["--info"@]);
        v
    }
}

/// The control operations on a server.
///
/// Each control operation returns `Ok(true)` when the server's command ran and
/// succeeded, `Ok(false)` when it ran and failed, and
/// `Err(MocError::InvocationFailed)` when it could not be started. An
/// implementation builds its arguments with [`crate::MocCommand::arguments`] and
/// reads the report with [`crate::parse_info`]; a test double may record the
/// requests instead.
pub trait MocInterface: Sized {
    fn new(moc_path: String) -> Self;

    /// What the server is doing now.
    fn info(&self) -> Result<MocInfo, MocError>;

    /// Empty the playlist.
    fn clear_playlist(&mut self) -> Result<bool, MocError>;

    /// Play the playlist from its first item.
    fn play_playlist(&mut self) -> Result<bool, MocError>;

    /// Play a file or a stream at once.
    fn immediate_play(&mut self, source: MocSource) -> Result<bool, MocError>;

    /// Stop the server.
    fn stop_server(&mut self) -> Result<bool, MocError>;

    fn next_song(&mut self) -> Result<bool, MocError>;

    fn previous_song(&mut self) -> Result<bool, MocError>;

    fn pause_playback(&mut self) -> Result<bool, MocError>;

    fn resume_playback(&mut self) -> Result<bool, MocError>;

    fn set_volume(&mut self, vol: usize) -> Result<bool, MocError>;

    fn increase_volume_by(&mut self, step: usize) -> Result<bool, MocError>;

    fn decrease_volume_by(&mut self, step: usize) -> Result<bool, MocError>;

    /// Add a file, by its path, to the playlist.
    fn append_music(&mut self, path: &str) -> Result<bool, MocError>;

    /// Move by `step` seconds: forwards when positive, backwards when negative.
    fn seek(&mut self, step: isize) -> Result<bool, MocError>;

    /// Go to the second `secs` of the track.
    fn jump_to(&mut self, secs: u64) -> Result<bool, MocError>;

    fn enable_control(&mut self, control: MocControl) -> Result<bool, MocError>;

    fn disable_control(&mut self, control: MocControl) -> Result<bool, MocError>;
}

} // verus!
