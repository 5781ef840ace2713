use moc_rs::command::decimal_text;
use moc_rs::{Moc, MocCommand, MocControl, MocSource};

fn args(c: MocCommand) -> Vec<String> {
    c.arguments()
}

#[test]
fn seek_forwards_and_backwards() {
    assert_eq!(args(MocCommand::Seek(10)), vec!["--seek", "+10"]);
    assert_eq!(args(MocCommand::Seek(-10)), vec!["--seek", "-10"]);
}

#[test]
fn seek_zero_has_no_sign() {
    assert_eq!(args(MocCommand::Seek(0)), vec!["--seek", "0"]);
}

#[test]
fn seek_extremes() {
    assert_eq!(
        args(MocCommand::Seek(isize::MIN)),
        vec!["--seek".to_string(), format!("{}", isize::MIN)]
    );
    assert_eq!(
        args(MocCommand::Seek(isize::MAX)),
        vec!["--seek".to_string(), format!("+{}", isize::MAX)]
    );
}

#[test]
fn volume_steps() {
    assert_eq!(args(MocCommand::IncreaseVolumeBy(5)), vec!["--volume", "+5"]);
    assert_eq!(args(MocCommand::DecreaseVolumeBy(15)), vec!["--volume", "-15"]);
}

#[test]
fn set_volume() {
    assert_eq!(args(MocCommand::SetVolume(50)), vec!["--volume", "50"]);
    assert_eq!(args(MocCommand::SetVolume(0)), vec!["--volume", "0"]);
}

#[test]
fn controls() {
    assert_eq!(args(MocCommand::EnableControl(MocControl::Shuffle)), vec!["--on", "shuffle"]);
    assert_eq!(args(MocCommand::DisableControl(MocControl::Repeat)), vec!["--off", "repeat"]);
    assert_eq!(args(MocCommand::EnableControl(MocControl::Autonext)), vec!["--on", "autonext"]);
}

#[test]
fn plain_commands() {
    assert_eq!(args(MocCommand::ClearPlaylist), vec!["--clear"]);
    assert_eq!(args(MocCommand::PlayPlaylist), vec!["--play"]);
    assert_eq!(args(MocCommand::StopServer), vec!["--stop"]);
    assert_eq!(args(MocCommand::NextSong), vec!["--next"]);
    assert_eq!(args(MocCommand::PreviousSong), vec!["--previous"]);
    assert_eq!(args(MocCommand::PausePlayback), vec!["--pause"]);
    assert_eq!(args(MocCommand::ResumePlayback), vec!["--unpause"]);
}

#[test]
fn immediate_play_sources() {
    assert_eq!(
        args(MocCommand::ImmediatePlay(MocSource::Url("http://sentinel.scenesat.com:8000/scenesat".to_string()))),
        vec!["--playit", "http://sentinel.scenesat.com:8000/scenesat"]
    );
    assert_eq!(
        args(MocCommand::ImmediatePlay(MocSource::File("/music/a b.ogg".to_string()))),
        vec!["--playit", "/music/a b.ogg"]
    );
}

#[test]
fn append_music_path() {
    assert_eq!(args(MocCommand::AppendMusic("/music/x.mp3".to_string())), vec!["--append", "/music/x.mp3"]);
}

#[test]
fn jump_to_seconds() {
    assert_eq!(args(MocCommand::JumpTo(90)), vec!["--jump", "90s"]);
    assert_eq!(args(MocCommand::JumpTo(0)), vec!["--jump", "0s"]);
}

#[test]
fn info_query() {
    assert_eq!(Moc::info_arguments(), vec!["--info"]);
    let m = Moc::new("mocp".to_string());
    assert_eq!(m.moc_path, "mocp");
}

#[test]
fn decimal_text_values() {
    assert_eq!(decimal_text(0), "0");
    assert_eq!(decimal_text(7), "7");
    assert_eq!(decimal_text(10), "10");
    assert_eq!(decimal_text(1234567890), "1234567890");
    assert_eq!(decimal_text(u64::MAX), u64::MAX.to_string());
}
