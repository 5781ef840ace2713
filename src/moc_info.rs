use crate::common::{InfoModel, MocInfo, MocSource, MocState};
use vstd::prelude::*;

verus! {

impl MocInfo {
    /// The state of the server.
    pub fn state(&self) -> (r: MocState)
        ensures
            r == self.state,
    {
        self.state
    }

    /// The snapshot with its state replaced; the builder methods named `with_*`
    /// each replace one field and keep the others.
    pub fn with_state(self, with: MocState) -> (r: Self)
        ensures
            r@ == (InfoModel { state: with, ..self@ }),
    {
        let mut s = self;
        s.state = with;
        s
    }

    /// What the server plays.
    pub fn file(&self) -> (r: MocSource)
        ensures
            r@ == self.file@,
    {
        self.file.duplicate()
    }

    pub fn with_file(self, with: MocSource) -> (r: Self)
        ensures
            r@ == (InfoModel { file: with@, ..self@ }),
    {
        let mut s = self;
        s.file = with;
        s
    }

    /// The full title, which the report calls `Title`.
    pub fn full_title(&self) -> (r: String)
        ensures
            r@ == self.full_title@,
    {
        self.full_title.clone()
    }

    pub fn with_full_title(self, with: String) -> (r: Self)
        ensures
            r@ == (InfoModel { full_title: with@, ..self@ }),
    {
        let mut s = self;
        s.full_title = with;
        s
    }

    /// The artist.
    pub fn artist(&self) -> (r: String)
        ensures
            r@ == self.artist@,
    {
        self.artist.clone()
    }

    pub fn with_artist(self, with: String) -> (r: Self)
        ensures
            r@ == (InfoModel { artist: with@, ..self@ }),
    {
        let mut s = self;
        s.artist = with;
        s
    }

    /// The song's own title, which the report calls `SongTitle`.
    pub fn title(&self) -> (r: String)
        ensures
            r@ == self.title@,
    {
        self.title.clone()
    }

    pub fn with_title(self, with: String) -> (r: Self)
        ensures
            r@ == (InfoModel { title: with@, ..self@ }),
    {
        let mut s = self;
        s.title = with;
        s
    }

    /// The album.
    pub fn album(&self) -> (r: String)
        ensures
            r@ == self.album@,
    {
        self.album.clone()
    }

    pub fn with_album(self, with: String) -> (r: Self)
        ensures
            r@ == (InfoModel { album: with@, ..self@ }),
    {
        let mut s = self;
        s.album = with;
        s
    }

    /// The length of the track in seconds; `None` for a stream of unknown length.
    pub fn total_time(&self) -> (r: Option<u64>)
        ensures
            r == self.total_time,
    {
        self.total_time
    }

    pub fn with_total_time(self, with: Option<u64>) -> (r: Self)
        ensures
            r@ == (InfoModel { total_time: with, ..self@ }),
    {
        let mut s = self;
        s.total_time = with;
        s
    }

    /// The seconds played of the track.
    pub fn current_time(&self) -> (r: u64)
        ensures
            r == self.current_time,
    {
        self.current_time
    }

    pub fn with_current_time(self, with: u64) -> (r: Self)
        ensures
            r@ == (InfoModel { current_time: with, ..self@ }),
    {
        let mut s = self;
        s.current_time = with;
        s
    }

    /// The bitrate, as the report writes it.
    pub fn bitrate(&self) -> (r: String)
        ensures
            r@ == self.bitrate@,
    {
        self.bitrate.clone()
    }

    pub fn with_bitrate(self, with: String) -> (r: Self)
        ensures
            r@ == (InfoModel { bitrate: with@, ..self@ }),
    {
        let mut s = self;
        s.bitrate = with;
        s
    }

    /// The average bitrate, as the report writes it.
    pub fn avg_bitrate(&self) -> (r: String)
        ensures
            r@ == self.avg_bitrate@,
    {
        self.avg_bitrate.clone()
    }

    pub fn with_avg_bitrate(self, with: String) -> (r: Self)
        ensures
            r@ == (InfoModel { avg_bitrate: with@, ..self@ }),
    {
        let mut s = self;
        s.avg_bitrate = with;
        s
    }

    /// The sample rate, as the report writes it.
    pub fn rate(&self) -> (r: String)
        ensures
            r@ == self.rate@,
    {
        self.rate.clone()
    }

    pub fn with_rate(self, with: String) -> (r: Self)
        ensures
            r@ == (InfoModel { rate: with@, ..self@ }),
    {
        let mut s = self;
        s.rate = with;
        s
    }
}

} // verus!
