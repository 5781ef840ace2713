use crate::common::{control_name, MocControl, MocSource};
use vstd::prelude::*;

verus! {

/// A request to the server, carried by one run of `mocp`.
#[derive(Clone, Debug, PartialEq, Eq)]
pub enum MocCommand {
    /// Empty the playlist.
    ClearPlaylist,
    /// Play the playlist from its first item.
    PlayPlaylist,
    /// Play a file or a stream at once.
    ImmediatePlay(MocSource),
    /// Stop the server.
    StopServer,
    NextSong,
    PreviousSong,
    PausePlayback,
    ResumePlayback,
    /// Set the volume; the server keeps it within its own bounds.
    SetVolume(usize),
    IncreaseVolumeBy(usize),
    DecreaseVolumeBy(usize),
    /// Add a file, by its path, to the playlist.
    AppendMusic(String),
    /// Move by this many seconds, forwards when positive, backwards when negative.
    Seek(isize),
    /// Go to this second of the track.
    JumpTo(u64),
    EnableControl(MocControl),
    DisableControl(MocControl),
}

/// The character of a decimal digit.
pub open spec fn digit_char(d: nat) -> char {
    seq!['0', '1', '2', '3', '4', '5', '6', '7', '8', '9'][d as int]
}

/// The decimal text of `n`, with no leading zero.
pub open spec fn decimal(n: nat) -> Seq<char>
    decreases n,
{
    if n < 10 {
        seq![digit_char(n)]
    } else {
        decimal(n / 10).push(digit_char(n % 10))
    }
}

/// The text of a seek step: `+` before a positive one, `-` before a negative one,
/// and no sign on zero.
pub open spec fn signed_decimal(x: int) -> Seq<char> {
    if x > 0 {
        seq!['+'] + decimal(x as nat)
    } else if x < 0 {
        seq!['-'] + decimal((-x) as nat)
    } else {
        seq!['0']
    }
}

/// The arguments of `mocp` that carry the request `c`.
pub open spec fn command_args(c: MocCommand) -> Seq<Seq<char>> {
    match c {
        MocCommand::ClearPlaylist => seq!["--clear"@],
        MocCommand::PlayPlaylist => seq!["--play"@],
        MocCommand::ImmediatePlay(s) => seq!["--playit"@, s@.text()],
        MocCommand::StopServer => seq!["--stop"@],
        MocCommand::NextSong => seq!["--next"@],
        MocCommand::PreviousSong => seq!["--previous"@],
        MocCommand::PausePlayback => seq!["--pause"@],
        MocCommand::ResumePlayback => seq!["--unpause"@],
        MocCommand::SetVolume(v) => seq!["--volume"@, decimal(v as nat)],
        MocCommand::IncreaseVolumeBy(step) => seq!["--volume"@, seq!['+'] + decimal(step as nat)],
        MocCommand::DecreaseVolumeBy(step) => seq!["--volume"@, seq!['-'] + decimal(step as nat)],
        MocCommand::AppendMusic(p) => seq!["--append"@, p@],
        MocCommand::Seek(step) => seq!["--seek"@, signed_decimal(step as int)],
        MocCommand::JumpTo(secs) => seq!["--jump"@, decimal(secs as nat).push('s')],
        MocCommand::EnableControl(f) => seq!["--on"@, control_name(f)],
        MocCommand::DisableControl(f) => seq!["--off"@, control_name(f)],
    }
}

/// Raising the volume by `step` sends `+<step>` and lowering it sends
/// `-<step>`; a seek sends a positive step with `+`, a negative one with its
/// own `-`, and zero with no sign.
pub proof fn steps_carry_their_sign(step: usize, delta: isize)
    ensures
        command_args(MocCommand::IncreaseVolumeBy(step))[1] == seq!['+'] + decimal(step as nat),
        command_args(MocCommand::DecreaseVolumeBy(step))[1] == seq!['-'] + decimal(step as nat),
        delta > 0 ==> command_args(MocCommand::Seek(delta))[1] == seq!['+'] + decimal(delta as nat),
        delta < 0 ==> command_args(MocCommand::Seek(delta))[1] == seq!['-'] + decimal((-delta) as nat),
        delta == 0 ==> command_args(MocCommand::Seek(delta))[1] == seq!['0'],
{
}

/// The views of a list of strings.
pub open spec fn texts(v: Seq<String>) -> Seq<Seq<char>> {
    v.map_values(|a: String| a@)
}

/// One decimal digit as a string.
fn digit_text(d: u64) -> (r: String)
    requires
        d < 10,
    ensures
        r@ == seq![digit_char(d as nat)],
{
    let all = "0123456789";
    proof {
        reveal_strlit("0123456789");
        assert(all@ =~= seq!['0', '1', '2', '3', '4', '5', '6', '7', '8', '9']);
    }
    let one = all.substring_char(d as usize, d as usize + 1);
    assert(one@ =~= seq![digit_char(d as nat)]);
    String::from_str(one)
}

/// The decimal text of `n`.
pub fn decimal_text(n: u64) -> (r: String)
    ensures
        r@ == decimal(n as nat),
{
    let mut acc = digit_text(n % 10);
    let mut rest: u64 = n / 10;
    while rest > 0
        invariant
            decimal(n as nat) == (if rest == 0 {
                acc@
            } else {
                decimal(rest as nat) + acc@
            }),
        decreases rest,
    {
        let d = digit_text(rest % 10);
        let ghost old_acc = acc@;
        acc = d.concat(acc.as_str());
        proof {
            if rest >= 10 {
                assert(decimal(rest as nat) + old_acc =~= decimal((rest / 10) as nat) + acc@);
            } else {
                assert(decimal(rest as nat) + old_acc =~= acc@);
            }
        }
        rest = rest / 10;
    }
    acc
}

/// A string with the view of a literal.
fn text(s: &str) -> (r: String)
    ensures
        r@ == s@,
{
    String::from_str(s)
}

/// A sign followed by the decimal text of `n`.
fn signed_text(sign: &str, n: u64) -> (r: String)
    ensures
        r@ == sign@ + decimal(n as nat),
{
    let digits = decimal_text(n);
    text(sign).concat(digits.as_str())
}

/// Two arguments.
fn pair(a: String, b: String) -> (r: Vec<String>)
    ensures
        texts(r@) == seq![a@, b@],
{
    let mut v: Vec<String> = Vec::new();
    v.push(a);
    v.push(b);
    assert(texts(v@) =~= seq![a@, b@]);
    v
}

/// One argument.
fn single(a: String) -> (r: Vec<String>)
    ensures
        texts(r@) == seq![a@],
{
    let mut v: Vec<String> = Vec::new();
    v.push(a);
    assert(texts(v@) =~= seq![a@]);
    v
}

impl MocCommand {
    /// The arguments of `mocp` that carry this request.
    pub fn arguments(&self) -> (r: Vec<String>)
        ensures
            texts(r@) == command_args(*self),
    {
        proof {
            reveal_strlit("+");
            reveal_strlit("-");
            reveal_strlit("0");
            assert("+"@ =~= seq!['+']);
            assert("-"@ =~= seq!['-']);
            assert("0"@ =~= seq!['0']);
        }
        match self {
            MocCommand::ClearPlaylist => single(text("--clear")),
            MocCommand::PlayPlaylist => single(text("--play")),
            MocCommand::ImmediatePlay(MocSource::File(p)) => pair(text("--playit"), p.clone()),
            MocCommand::ImmediatePlay(MocSource::Url(u)) => pair(text("--playit"), u.clone()),
            MocCommand::StopServer => single(text("--stop")),
            MocCommand::NextSong => single(text("--next")),
            MocCommand::PreviousSong => single(text("--previous")),
            MocCommand::PausePlayback => single(text("--pause")),
            MocCommand::ResumePlayback => single(text("--unpause")),
            MocCommand::SetVolume(v) => pair(text("--volume"), decimal_text(*v as u64)),
            MocCommand::IncreaseVolumeBy(step) => pair(text("--volume"), signed_text("+", *step as u64)),
            MocCommand::DecreaseVolumeBy(step) => pair(text("--volume"), signed_text("-", *step as u64)),
            MocCommand::AppendMusic(p) => pair(text("--append"), p.clone()),
            MocCommand::Seek(step) => {
                let arg = if *step > 0 {
                    signed_text("+", *step as u64)
                } else if *step < 0 {
                    signed_text("-", (-(*step as i128)) as u64)
                } else {
                    text("0")
                };
                pair(text("--seek"), arg)
            },
            MocCommand::JumpTo(secs) => {
                proof {
                    reveal_strlit("s");
                }
                let digits = decimal_text(*secs);
                let arg = digits.concat("s");
                assert(arg@ =~= decimal(*secs as nat).push('s'));
                pair(text("--jump"), arg)
            },
            MocCommand::EnableControl(f) => pair(text("--on"), f.name()),
            MocCommand::DisableControl(f) => pair(text("--off"), f.name()),
        }
    }
}

} // verus!
