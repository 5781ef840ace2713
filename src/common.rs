use vstd::prelude::*;

verus! {

/// The state of the server: stopped, paused or playing.
#[derive(Clone, Copy, Debug, PartialEq, Eq, Structural)]
pub enum MocState {
    Stopped,
    Paused,
    Playing,
}

/// What the server plays: a file, by its path, or a stream, by its URL.
#[derive(Clone, Debug, PartialEq, Eq)]
pub enum MocSource {
    File(String),
    Url(String),
}

/// The mathematical value of a [`MocSource`].
pub enum SourceModel {
    File(Seq<char>),
    Url(Seq<char>),
}

impl View for MocSource {
    type V = SourceModel;

    open spec fn view(&self) -> SourceModel {
        match self {
            MocSource::File(p) => SourceModel::File(p@),
            MocSource::Url(u) => SourceModel::Url(u@),
        }
    }
}

impl SourceModel {
    /// The text of the source: the path of a file, or the URL of a stream.
    pub open spec fn text(self) -> Seq<char> {
        match self {
            SourceModel::File(p) => p,
            SourceModel::Url(u) => u,
        }
    }
}

impl MocSource {
    /// The source as text, whether it is a file or a URL.
    pub fn to_str(&self) -> (r: Option<&str>)
        ensures
            r matches Some(t) && t@ == self@.text(),
    {
        match self {
            MocSource::File(p) => Some(p.as_str()),
            MocSource::Url(u) => Some(u.as_str()),
        }
    }

    /// A copy of the source.
    pub fn duplicate(&self) -> (r: MocSource)
        ensures
            r@ == self@,
    {
        match self {
            MocSource::File(p) => MocSource::File(p.clone()),
            MocSource::Url(u) => MocSource::Url(u.clone()),
        }
    }
}

/// A playback behaviour that the server can switch on or off.
#[derive(Clone, Copy, Debug, PartialEq, Eq, Structural)]
pub enum MocControl {
    Shuffle,
    Autonext,
    Repeat,
}

/// The name under which the server knows a control.
pub open spec fn control_name(c: MocControl) -> Seq<char> {
    match c {
        MocControl::Shuffle => seq!['s', 'h', 'u', 'f', 'f', 'l', 'e'],
        MocControl::Autonext => seq!['a', 'u', 't', 'o', 'n', 'e', 'x', 't'],
        MocControl::Repeat => seq!['r', 'e', 'p', 'e', 'a', 't'],
    }
}

impl MocControl {
    /// The lower-case name of the control: `shuffle`, `autonext` or `repeat`.
    pub fn name(&self) -> (r: String)
        ensures
            r@ == control_name(*self),
    {
        match self {
            MocControl::Shuffle => {
                let s = "shuffle";
                proof {
                    reveal_strlit("shuffle");
                }
                String::from_str(s)
            },
            MocControl::Autonext => {
                let s = "autonext";
                proof {
                    reveal_strlit("autonext");
                }
                String::from_str(s)
            },
            MocControl::Repeat => {
                let s = "repeat";
                proof {
                    reveal_strlit("repeat");
                }
                String::from_str(s)
            },
        }
    }
}

/// One snapshot of what the server is doing.
///
/// When the state is [`MocState::Stopped`] every other field holds its default.
/// The report's `Title` is the full title (`full_title`), and its `SongTitle` is
/// the song's own title (`title`). `total_time` is `None` for a stream, whose
/// length is unknown. Times are in whole seconds; the rates are kept as the
/// report wrote them.
#[derive(Clone, Debug, PartialEq, Eq)]
pub struct MocInfo {
    pub state: MocState,
    pub file: MocSource,
    pub full_title: String,
    pub artist: String,
    pub title: String,
    pub album: String,
    pub total_time: Option<u64>,
    pub current_time: u64,
    pub bitrate: String,
    pub avg_bitrate: String,
    pub rate: String,
}

/// The mathematical value of a [`MocInfo`].
pub struct InfoModel {
    pub state: MocState,
    pub file: SourceModel,
    pub full_title: Seq<char>,
    pub artist: Seq<char>,
    pub title: Seq<char>,
    pub album: Seq<char>,
    pub total_time: Option<u64>,
    pub current_time: u64,
    pub bitrate: Seq<char>,
    pub avg_bitrate: Seq<char>,
    pub rate: Seq<char>,
}

impl View for MocInfo {
    type V = InfoModel;

    open spec fn view(&self) -> InfoModel {
        InfoModel {
            state: self.state,
            file: self.file@,
            full_title: self.full_title@,
            artist: self.artist@,
            title: self.title@,
            album: self.album@,
            total_time: self.total_time,
            current_time: self.current_time,
            bitrate: self.bitrate@,
            avg_bitrate: self.avg_bitrate@,
            rate: self.rate@,
        }
    }
}

/// The default snapshot: stopped, an empty file path, empty texts, no total
/// time and a current time of zero.
pub open spec fn default_model() -> InfoModel {
    InfoModel {
        state: MocState::Stopped,
        file: SourceModel::File(Seq::empty()),
        full_title: Seq::empty(),
        artist: Seq::empty(),
        title: Seq::empty(),
        album: Seq::empty(),
        total_time: None,
        current_time: 0,
        bitrate: Seq::empty(),
        avg_bitrate: Seq::empty(),
        rate: Seq::empty(),
    }
}

impl Default for MocInfo {
    fn default() -> (r: MocInfo)
        ensures
            r@ == default_model(),
    {
        MocInfo {
            state: MocState::Stopped,
            file: MocSource::File(String::new()),
            full_title: String::new(),
            artist: String::new(),
            title: String::new(),
            album: String::new(),
            total_time: None,
            current_time: 0,
            bitrate: String::new(),
            avg_bitrate: String::new(),
            rate: String::new(),
        }
    }
}

/// Why a report could not be read or a request could not be carried out.
#[derive(Clone, Debug, PartialEq, Eq)]
pub enum MocError {
    /// A field that the report's state requires is absent.
    MissingField(String),
    /// The `State` field holds a value that is not `STOP`, `PAUSE` or `PLAY`.
    UnknownState(String),
    /// A field that should hold a whole number of seconds does not: the field, then its value.
    InvalidNumber(String, String),
    /// A path cannot be written as text.
    UnrepresentableSource,
    /// The server's command could not be started.
    InvocationFailed,
}

/// The mathematical value of a [`MocError`].
pub enum ErrorModel {
    MissingField(Seq<char>),
    UnknownState(Seq<char>),
    InvalidNumber(Seq<char>, Seq<char>),
    UnrepresentableSource,
    InvocationFailed,
}

impl View for MocError {
    type V = ErrorModel;

    open spec fn view(&self) -> ErrorModel {
        match self {
            MocError::MissingField(f) => ErrorModel::MissingField(f@),
            MocError::UnknownState(s) => ErrorModel::UnknownState(s@),
            MocError::InvalidNumber(f, v) => ErrorModel::InvalidNumber(f@, v@),
            MocError::UnrepresentableSource => ErrorModel::UnrepresentableSource,
            MocError::InvocationFailed => ErrorModel::InvocationFailed,
        }
    }
}

} // verus!
