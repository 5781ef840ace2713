use crate::common::{default_model, InfoModel, MocError, MocInfo, MocSource, MocState, SourceModel, ErrorModel};
use vstd::prelude::*;

verus! {

/// The lines of a report: the text cut at each `'\n'`, which no line keeps.
pub open spec fn report_lines(s: Seq<char>) -> Seq<Seq<char>>
    decreases s.len(),
{
    if s.len() == 0 {
        seq![Seq::empty()]
    } else {
        let prev = report_lines(s.drop_last());
        if s.last() == '\n' {
            prev.push(Seq::empty())
        } else {
            prev.update(prev.len() - 1, prev.last().push(s.last()))
        }
    }
}

/// Where the first `": "` of a line starts, searching from `i`; the line's length if none does.
pub open spec fn separator_from(l: Seq<char>, i: int) -> int
    decreases l.len() - i,
{
    if i < 0 || i + 1 >= l.len() {
        l.len() as int
    } else if l[i] == ':' && l[i + 1] == ' ' {
        i
    } else {
        separator_from(l, i + 1)
    }
}

/// The key of a line: what stands before its first `": "`, or the whole line.
pub open spec fn key_of(l: Seq<char>) -> Seq<char> {
    l.subrange(0, separator_from(l, 0))
}

/// The value of a line: what follows its first `": "`, or nothing.
pub open spec fn value_of(l: Seq<char>) -> Seq<char> {
    let p = separator_from(l, 0);
    if p < l.len() {
        l.subrange(p + 2, l.len() as int)
    } else {
        Seq::empty()
    }
}

/// The value of the last of `ls` whose key is `key`.
pub open spec fn lookup(ls: Seq<Seq<char>>, key: Seq<char>) -> Option<Seq<char>>
    decreases ls.len(),
{
    if ls.len() == 0 {
        None
    } else if key_of(ls.last()) == key {
        Some(value_of(ls.last()))
    } else {
        lookup(ls.drop_last(), key)
    }
}

/// The value that the report `s` gives the field `key`; a later line overrides an earlier one.
pub open spec fn report_field(s: Seq<char>, key: Seq<char>) -> Option<Seq<char>> {
    lookup(report_lines(s), key)
}

pub open spec fn is_digit(c: char) -> bool {
    '0' <= c && c <= '9'
}

pub open spec fn digit_value(c: char) -> nat {
    (c as nat - '0' as nat) as nat
}

/// The number that a string of decimal digits writes.
pub open spec fn digits_value(d: Seq<char>) -> nat
    decreases d.len(),
{
    if d.len() == 0 {
        0
    } else {
        digits_value(d.drop_last()) * 10 + digit_value(d.last())
    }
}

/// The text of a number without its leading `+`, if it has one.
pub open spec fn unsigned_digits(t: Seq<char>) -> Seq<char> {
    if t.len() > 0 && t[0] == '+' {
        t.drop_first()
    } else {
        t
    }
}

pub open spec fn all_digits(d: Seq<char>) -> bool {
    forall|i: int| 0 <= i < d.len() ==> is_digit(#[trigger] d[i])
}

/// A whole number of seconds as the report writes it: an optional `+`, then one
/// or more decimal digits, of a value that fits in a `u64`.
pub open spec fn seconds_of(t: Seq<char>) -> Option<u64> {
    let d = unsigned_digits(t);
    if d.len() > 0 && all_digits(d) && digits_value(d) <= u64::MAX {
        Some(digits_value(d) as u64)
    } else {
        None
    }
}

/// Whether `f` begins with `p`.
pub open spec fn has_prefix(f: Seq<char>, p: Seq<char>) -> bool {
    p.len() <= f.len() && f.subrange(0, p.len() as int) == p
}

/// Whether a file value names a stream: it begins with the scheme `http://`
/// or `https://`.
pub open spec fn is_stream(f: Seq<char>) -> bool {
    has_prefix(f, "http://"@) || has_prefix(f, "https://"@)
}

/// The source that a file value names.
pub open spec fn source_of(f: Seq<char>) -> SourceModel {
    if is_stream(f) {
        SourceModel::Url(f)
    } else {
        SourceModel::File(f)
    }
}

/// A text field of the report, or nothing where the report leaves it out.
pub open spec fn text_field(s: Seq<char>, key: Seq<char>) -> Seq<char> {
    match report_field(s, key) {
        Some(v) => v,
        None => Seq::empty(),
    }
}

/// What the report `s` of a paused or playing server (`state`) reads as.
///
/// `CurrentSec` and `File` are required. A missing text field is empty. A
/// missing `TotalSec` leaves the total time unset.
pub open spec fn track_report(s: Seq<char>, state: MocState) -> Result<InfoModel, ErrorModel> {
    let current = report_field(s, "CurrentSec"@);
    let file = report_field(s, "File"@);
    let total = report_field(s, "TotalSec"@);
    if current is None {
        Err(ErrorModel::MissingField("CurrentSec"@))
    } else if seconds_of(current->0) is None {
        Err(ErrorModel::InvalidNumber("CurrentSec"@, current->0))
    } else if file is None {
        Err(ErrorModel::MissingField("File"@))
    } else if total is Some && seconds_of(total->0) is None {
        Err(ErrorModel::InvalidNumber("TotalSec"@, total->0))
    } else {
        Ok(
            InfoModel {
                state,
                file: source_of(file->0),
                full_title: text_field(s, "Title"@),
                artist: text_field(s, "Artist"@),
                title: text_field(s, "SongTitle"@),
                album: text_field(s, "Album"@),
                total_time: match total {
                    Some(t) => seconds_of(t),
                    None => None,
                },
                current_time: seconds_of(current->0)->0,
                bitrate: text_field(s, "Bitrate"@),
                avg_bitrate: text_field(s, "AvgBitrate"@),
                rate: text_field(s, "Rate"@),
            },
        )
    }
}

/// What the report `s` reads as: a snapshot, or the first error met.
pub open spec fn parse_report(s: Seq<char>) -> Result<InfoModel, ErrorModel> {
    match report_field(s, "State"@) {
        None => Err(ErrorModel::MissingField("State"@)),
        Some(st) => {
            if st == "STOP"@ {
                Ok(default_model())
            } else if st == "PAUSE"@ {
                track_report(s, MocState::Paused)
            } else if st == "PLAY"@ {
                track_report(s, MocState::Playing)
            } else {
                Err(ErrorModel::UnknownState(st))
            }
        },
    }
}

proof fn lemma_report_lines_nonempty(s: Seq<char>)
    ensures
        report_lines(s).len() >= 1,
    decreases s.len(),
{
    if s.len() > 0 {
        lemma_report_lines_nonempty(s.drop_last());
    }
}

/// The key and value of one line.
fn split_line(line: &str) -> (r: (String, String))
    ensures
        r.0@ == key_of(line@),
        r.1@ == value_of(line@),
{
    let n = line.unicode_len();
    let mut i: usize = 0;
    while i < n && n - i > 1
        invariant
            n == line@.len(),
            i <= n,
            separator_from(line@, 0) == separator_from(line@, i as int),
        decreases n - i,
    {
        if line.get_char(i) == ':' && line.get_char(i + 1) == ' ' {
            let key = String::from_str(line.substring_char(0, i));
            let value = String::from_str(line.substring_char(i + 2, n));
            return (key, value);
        }
        i = i + 1;
    }
    (String::from_str(line), String::new())
}

/// The key and value of each line of `raw`, in order.
fn report_entries(raw: &str) -> (r: Vec<(String, String)>)
    ensures
        r@.len() == report_lines(raw@).len(),
        forall|j: int|
            0 <= j < r@.len() ==> (#[trigger] r@[j]).0@ == key_of(report_lines(raw@)[j]) && r@[j].1@
                == value_of(report_lines(raw@)[j]),
{
    let n = raw.unicode_len();
    let mut entries: Vec<(String, String)> = Vec::new();
    let ghost mut done: Seq<Seq<char>> = Seq::empty();
    let mut start: usize = 0;
    let mut i: usize = 0;
    assert(raw@.subrange(0, 0) =~= Seq::<char>::empty());
    assert(report_lines(raw@.subrange(0, 0)) =~= done.push(raw@.subrange(0, 0)));
    while i < n
        invariant
            n == raw@.len(),
            start <= i <= n,
            report_lines(raw@.subrange(0, i as int)) == done.push(raw@.subrange(start as int, i as int)),
            entries@.len() == done.len(),
            forall|j: int|
                0 <= j < entries@.len() ==> (#[trigger] entries@[j]).0@ == key_of(done[j])
                    && entries@[j].1@ == value_of(done[j]),
        decreases n - i,
    {
        let c = raw.get_char(i);
        proof {
            let pre = raw@.subrange(0, i as int);
            let next = raw@.subrange(0, i + 1);
            assert(next.drop_last() =~= pre);
            assert(next.last() == c);
            lemma_report_lines_nonempty(pre);
        }
        if c == '\n' {
            let line = raw.substring_char(start, i);
            let e = split_line(line);
            entries.push(e);
            proof {
                done = done.push(raw@.subrange(start as int, i as int));
                assert(raw@.subrange(i + 1, i + 1) =~= Seq::<char>::empty());
            }
            start = i + 1;
        } else {
            proof {
                assert(raw@.subrange(start as int, i + 1) =~= raw@.subrange(start as int, i as int).push(c));
            }
        }
        i = i + 1;
        proof {
            assert(report_lines(raw@.subrange(0, i as int)) =~= done.push(raw@.subrange(start as int, i as int)));
        }
    }
    let line = raw.substring_char(start, n);
    let e = split_line(line);
    entries.push(e);
    proof {
        assert(raw@.subrange(0, n as int) =~= raw@);
        assert(report_lines(raw@) =~= done.push(line@));
    }
    entries
}

/// The value of the last entry whose key is `key`.
fn find_field(entries: &Vec<(String, String)>, key: &str, ls: Ghost<Seq<Seq<char>>>) -> (r: Option<
    String,
>)
    requires
        entries@.len() == ls@.len(),
        forall|j: int|
            0 <= j < entries@.len() ==> (#[trigger] entries@[j]).0@ == key_of(ls@[j]) && entries@[j].1@
                == value_of(ls@[j]),
    ensures
        match r {
            Some(v) => lookup(ls@, key@) == Some(v@),
            None => lookup(ls@, key@) is None,
        },
{
    let k = String::from_str(key);
    let mut j: usize = entries.len();
    assert(ls@.subrange(0, j as int) =~= ls@);
    while j > 0
        invariant
            j <= entries@.len(),
            entries@.len() == ls@.len(),
            k@ == key@,
            forall|m: int|
                0 <= m < entries@.len() ==> (#[trigger] entries@[m]).0@ == key_of(ls@[m]) && entries@[m].1@
                    == value_of(ls@[m]),
            lookup(ls@, key@) == lookup(ls@.subrange(0, j as int), key@),
        decreases j,
    {
        proof {
            assert(ls@.subrange(0, j as int).drop_last() =~= ls@.subrange(0, j - 1));
        }
        if entries[j - 1].0.eq(&k) {
            return Some(entries[j - 1].1.clone());
        }
        j = j - 1;
    }
    None
}

/// A text field, or an empty string where the report leaves it out.
fn text_value(entries: &Vec<(String, String)>, key: &str, ls: Ghost<Seq<Seq<char>>>) -> (r: String)
    requires
        entries@.len() == ls@.len(),
        forall|j: int|
            0 <= j < entries@.len() ==> (#[trigger] entries@[j]).0@ == key_of(ls@[j]) && entries@[j].1@
                == value_of(ls@[j]),
    ensures
        r@ == (match lookup(ls@, key@) {
            Some(v) => v,
            None => Seq::empty(),
        }),
{
    match find_field(entries, key, ls) {
        Some(v) => v,
        None => String::new(),
    }
}

proof fn lemma_digits_grow(d: Seq<char>, i: int)
    requires
        0 <= i <= d.len(),
        forall|m: int| 0 <= m < d.len() ==> is_digit(#[trigger] d[m]),
    ensures
        digits_value(d.subrange(0, i)) <= digits_value(d),
    decreases d.len() - i,
{
    if i < d.len() {
        lemma_digits_grow(d, i + 1);
        assert(d.subrange(0, i + 1).drop_last() =~= d.subrange(0, i));
    } else {
        assert(d.subrange(0, i) =~= d);
    }
}

/// Reads a whole number of seconds: an optional `+`, then decimal digits.
pub fn parse_seconds(t: &str) -> (r: Option<u64>)
    ensures
        r == seconds_of(t@),
{
    let n = t.unicode_len();
    let mut i: usize = 0;
    if n > 0 && t.get_char(0) == '+' {
        i = 1;
    }
    let first = i;
    let ghost d = if first == 1 {
        t@.drop_first()
    } else {
        t@
    };
    assert(d =~= t@.subrange(first as int, n as int));
    assert(d == unsigned_digits(t@));
    if i == n {
        return None;
    }
    let mut v: u64 = 0;
    while i < n
        invariant
            n == t@.len(),
            first <= i <= n,
            first < n,
            d == t@.subrange(first as int, n as int),
            d == unsigned_digits(t@),
            forall|m: int| 0 <= m < i - first ==> is_digit(#[trigger] d[m]),
            v == digits_value(d.subrange(0, i - first)),
        decreases n - i,
    {
        let c = t.get_char(i);
        if !('0' <= c && c <= '9') {
            assert(d[i - first] == c);
            assert(!is_digit(d[i - first]));
            assert(!all_digits(d));
            return None;
        }
        let dv = (c as u32 - '0' as u32) as u64;
        assert(d.subrange(0, i + 1 - first).drop_last() =~= d.subrange(0, i - first));
        assert(d.subrange(0, i + 1 - first).last() == c);
        if v > (u64::MAX - dv) / 10 {
            proof {
                assert(v * 10 + dv > u64::MAX) by (nonlinear_arith)
                    requires
                        v > (u64::MAX - dv) / 10,
                        dv <= 9,
                ;
                let pre = d.subrange(0, i + 1 - first);
                assert(digits_value(pre) == digits_value(pre.drop_last()) * 10 + digit_value(pre.last()));
                assert(digit_value(c) == dv);
                if all_digits(d) {
                    lemma_digits_grow(d, i + 1 - first);
                }
            }
            return None;
        }
        proof {
            assert(v * 10 + dv <= u64::MAX) by (nonlinear_arith)
                requires
                    v <= (u64::MAX - dv) / 10,
                    dv <= 9,
            ;
        }
        v = v * 10 + dv;
        i = i + 1;
    }
    assert(d.subrange(0, n - first) =~= d);
    Some(v)
}

/// Whether `f` begins with `p`.
fn starts_with(f: &str, p: &str) -> (r: bool)
    ensures
        r == has_prefix(f@, p@),
{
    let n = f.unicode_len();
    let m = p.unicode_len();
    if m > n {
        return false;
    }
    let mut i: usize = 0;
    while i < m
        invariant
            n == f@.len(),
            m == p@.len(),
            m <= n,
            i <= m,
            f@.subrange(0, i as int) == p@.subrange(0, i as int),
        decreases m - i,
    {
        if f.get_char(i) != p.get_char(i) {
            assert(f@.subrange(0, m as int)[i as int] != p@[i as int]);
            return false;
        }
        assert(f@.subrange(0, i + 1) =~= f@.subrange(0, i as int).push(f@[i as int]));
        assert(p@.subrange(0, i + 1) =~= p@.subrange(0, i as int).push(p@[i as int]));
        i = i + 1;
    }
    assert(p@.subrange(0, m as int) =~= p@);
    true
}

/// Whether a file value names a stream.
fn names_stream(f: &str) -> (r: bool)
    ensures
        r == is_stream(f@),
{
    starts_with(f, "http://") || starts_with(f, "https://")
}

/// Parses a status report, the output of `mocp --info`, into a snapshot.
///
/// Each line is `Key: Value`, cut at the first `": "`; a line with no `": "`
/// is a key with an empty value, and a later line for a key overrides an
/// earlier one. A `STOP` state gives the default snapshot whatever else the
/// report holds.
pub fn parse_info(raw: &str) -> (r: Result<MocInfo, MocError>)
    ensures
        match r {
            Ok(i) => parse_report(raw@) == Ok::<InfoModel, ErrorModel>(i@),
            Err(e) => parse_report(raw@) == Err::<InfoModel, ErrorModel>(e@),
        },
{
    let entries = report_entries(raw);
    let ghost ls = report_lines(raw@);
    let state = match find_field(&entries, "State", Ghost(ls)) {
        None => return Err(MocError::MissingField(String::from_str("State"))),
        Some(s) => s,
    };
    let mocstate = if state.eq(&String::from_str("STOP")) {
        return Ok(MocInfo::default());
    } else if state.eq(&String::from_str("PAUSE")) {
        MocState::Paused
    } else if state.eq(&String::from_str("PLAY")) {
        MocState::Playing
    } else {
        return Err(MocError::UnknownState(state));
    };
    let current = match find_field(&entries, "CurrentSec", Ghost(ls)) {
        None => return Err(MocError::MissingField(String::from_str("CurrentSec"))),
        Some(c) => c,
    };
    let current_time = match parse_seconds(current.as_str()) {
        None => return Err(MocError::InvalidNumber(String::from_str("CurrentSec"), current)),
        Some(v) => v,
    };
    let file = match find_field(&entries, "File", Ghost(ls)) {
        None => return Err(MocError::MissingField(String::from_str("File"))),
        Some(f) => f,
    };
    let total_time = match find_field(&entries, "TotalSec", Ghost(ls)) {
        None => None,
        Some(t) => match parse_seconds(t.as_str()) {
            None => return Err(MocError::InvalidNumber(String::from_str("TotalSec"), t)),
            Some(v) => Some(v),
        },
    };
    let source = if names_stream(file.as_str()) {
        MocSource::Url(file)
    } else {
        MocSource::File(file)
    };
    Ok(
        MocInfo {
            state: mocstate,
            file: source,
            full_title: text_value(&entries, "Title", Ghost(ls)),
            artist: text_value(&entries, "Artist", Ghost(ls)),
            title: text_value(&entries, "SongTitle", Ghost(ls)),
            album: text_value(&entries, "Album", Ghost(ls)),
            total_time,
            current_time,
            bitrate: text_value(&entries, "Bitrate", Ghost(ls)),
            avg_bitrate: text_value(&entries, "AvgBitrate", Ghost(ls)),
            rate: text_value(&entries, "Rate", Ghost(ls)),
        },
    )
}

} // verus!

verus! {

/// Whether the report of a paused or playing server has what a snapshot needs:
/// a numeric `CurrentSec`, a `File`, and a numeric `TotalSec` if any.
pub open spec fn complete_track(s: Seq<char>) -> bool {
    &&& report_field(s, "CurrentSec"@) matches Some(c) && seconds_of(c) is Some
    &&& report_field(s, "File"@) is Some
    &&& report_field(s, "TotalSec"@) matches Some(t) ==> seconds_of(t) is Some
}

proof fn lemma_states_distinct()
    ensures
        "PLAY"@ != "STOP"@,
        "PLAY"@ != "PAUSE"@,
        "PAUSE"@ != "STOP"@,
{
    reveal_strlit("STOP");
    reveal_strlit("PLAY");
    reveal_strlit("PAUSE");
    assert("PLAY"@[1] != "STOP"@[1]);
    assert("PLAY"@[1] != "PAUSE"@[1]);
    assert("PAUSE"@.len() != "STOP"@.len());
}

/// A report whose state is `STOP` reads as the default snapshot, which is
/// stopped, whatever its other lines say.
pub proof fn stopped_report_is_default(s: Seq<char>)
    requires
        report_field(s, "State"@) == Some("STOP"@),
    ensures
        parse_report(s) == Ok::<InfoModel, ErrorModel>(default_model()),
        default_model().state == MocState::Stopped,
{
}

/// A paused or playing report whose file begins with `http://` or `https://`
/// reads as a stream of exactly that URL.
pub proof fn http_file_is_stream(s: Seq<char>, f: Seq<char>)
    requires
        report_field(s, "State"@) == Some("PLAY"@) || report_field(s, "State"@) == Some("PAUSE"@),
        report_field(s, "File"@) == Some(f),
        has_prefix(f, "http://"@) || has_prefix(f, "https://"@),
        complete_track(s),
    ensures
        parse_report(s) matches Ok(i) && i.file == SourceModel::Url(f),
{
    lemma_states_distinct();
}

/// A playing report whose file begins with neither `http://` nor `https://`
/// reads as a local file of exactly that path.
pub proof fn other_file_is_local(s: Seq<char>, f: Seq<char>)
    requires
        report_field(s, "State"@) == Some("PLAY"@),
        report_field(s, "File"@) == Some(f),
        !has_prefix(f, "http://"@),
        !has_prefix(f, "https://"@),
        complete_track(s),
    ensures
        parse_report(s) matches Ok(i) && i.file == SourceModel::File(f),
{
    lemma_states_distinct();
}

/// In a paused or playing report, a `TotalSec` field becomes the total time,
/// in seconds, and its absence leaves the total time unset, never zero.
pub proof fn total_time_follows_report(s: Seq<char>)
    requires
        report_field(s, "State"@) == Some("PLAY"@) || report_field(s, "State"@) == Some("PAUSE"@),
        complete_track(s),
    ensures
        parse_report(s) matches Ok(i) && match report_field(s, "TotalSec"@) {
            Some(t) => i.total_time == seconds_of(t) && i.total_time is Some,
            None => i.total_time is None,
        },
{
    lemma_states_distinct();
}

/// A playing report without `CurrentSec` is refused for that missing field.
pub proof fn playing_needs_current_time(s: Seq<char>)
    requires
        report_field(s, "State"@) == Some("PLAY"@),
        report_field(s, "CurrentSec"@) is None,
    ensures
        parse_report(s) == Err::<InfoModel, ErrorModel>(ErrorModel::MissingField("CurrentSec"@)),
{
    lemma_states_distinct();
}

} // verus!
