//! Duplicate object keys in JSON text. A scan walks the characters once,
//! keeping one frame per open object or array; inside an object, the
//! string that stands where a key is expected (after `{` or `,`) is a key,
//! compared with the object's earlier keys once its escapes are decoded.
use vstd::prelude::*;

use crate::text::{opt_view, owned, strings_contain, strings_view};

verus! {

/// The string that the JSON string literal `raw` (quotes included)
/// denotes, as `serde_json` decodes it; `None` when `raw` is no literal.
pub uninterp spec fn json_string_value(raw: Seq<char>) -> Option<Seq<char>>;

/// Decodes the JSON string literal `raw` with `serde_json`.
#[verifier::external_body]
fn decode_json_string(raw: &str) -> (r: Option<String>)
    ensures
        opt_view(r) == json_string_value(raw@),
{
    serde_json::from_str::<String>(raw).ok()
}

/// The key a literal stands for: its decoded text, or the literal itself
/// when it does not decode.
pub open spec fn key_text(raw: Seq<char>) -> Seq<char> {
    match json_string_value(raw) {
        Some(k) => k,
        None => raw,
    }
}

/// An open object or array, and the keys its object has shown so far.
pub struct KeyFrame {
    pub is_object: bool,
    pub expect_key: bool,
    pub keys: Seq<Seq<char>>,
}

/// Where the scan stands: inside a string literal (and after a backslash
/// in it), where the literal started, the open containers, and the first
/// repeated key once one is seen.
pub struct ScanState {
    pub in_string: bool,
    pub escaped: bool,
    pub start: int,
    pub frames: Seq<KeyFrame>,
    pub duplicate: Option<Seq<char>>,
    pub duplicate_end: int,
}

pub open spec fn initial_scan() -> ScanState {
    ScanState {
        in_string: false,
        escaped: false,
        start: 0,
        frames: Seq::empty(),
        duplicate: None,
        duplicate_end: 0,
    }
}

/// The scan after the literal that ends at `i` closes: a key of the
/// innermost object is recorded, or reported when the object has it.
pub open spec fn close_string(text: Seq<char>, st: ScanState, i: int) -> ScanState {
    let closed = ScanState { in_string: false, escaped: false, ..st };
    if st.frames.len() > 0 && st.frames.last().is_object && st.frames.last().expect_key {
        let key = key_text(text.subrange(st.start, i + 1));
        let top = st.frames.last();
        if top.keys.contains(key) {
            ScanState { duplicate: Some(key), duplicate_end: i + 1, ..closed }
        } else {
            ScanState {
                frames: st.frames.update(
                    st.frames.len() - 1,
                    KeyFrame { expect_key: false, keys: top.keys.push(key), ..top },
                ),
                ..closed
            }
        }
    } else {
        closed
    }
}

/// One character of the scan; nothing changes once a duplicate is seen.
pub open spec fn scan_char(text: Seq<char>, st: ScanState, i: int) -> ScanState {
    let c = text[i];
    if st.duplicate is Some {
        st
    } else if st.in_string {
        if st.escaped {
            ScanState { escaped: false, ..st }
        } else if c == '\\' {
            ScanState { escaped: true, ..st }
        } else if c == '"' {
            close_string(text, st, i)
        } else {
            st
        }
    } else if c == '"' {
        ScanState { in_string: true, escaped: false, start: i, ..st }
    } else if c == '{' {
        ScanState {
            frames: st.frames.push(KeyFrame { is_object: true, expect_key: true, keys: Seq::empty() }),
            ..st
        }
    } else if c == '[' {
        ScanState {
            frames: st.frames.push(KeyFrame { is_object: false, expect_key: false, keys: Seq::empty() }),
            ..st
        }
    } else if c == '}' || c == ']' {
        if st.frames.len() > 0 {
            ScanState { frames: st.frames.drop_last(), ..st }
        } else {
            st
        }
    } else if c == ',' {
        if st.frames.len() > 0 && st.frames.last().is_object {
            ScanState {
                frames: st.frames.update(
                    st.frames.len() - 1,
                    KeyFrame { expect_key: true, ..st.frames.last() },
                ),
                ..st
            }
        } else {
            st
        }
    } else {
        st
    }
}

/// The scan of the first `n` characters.
pub open spec fn scan(text: Seq<char>, n: int) -> ScanState
    decreases n,
{
    if n <= 0 {
        initial_scan()
    } else {
        scan_char(text, scan(text, n - 1), n - 1)
    }
}

/// The first key that some object of `text` repeats, decoded.
pub open spec fn first_duplicate_key(text: Seq<char>) -> Option<Seq<char>> {
    scan(text, text.len() as int).duplicate
}

/// Where the first repeated key ends: the index just after its closing quote.
pub open spec fn first_duplicate_end(text: Seq<char>) -> int {
    scan(text, text.len() as int).duplicate_end
}

struct Frame {
    is_object: bool,
    expect_key: bool,
    keys: Vec<String>,
}

impl View for Frame {
    type V = KeyFrame;

    closed spec fn view(&self) -> KeyFrame {
        KeyFrame { is_object: self.is_object, expect_key: self.expect_key, keys: strings_view(self.keys@) }
    }
}

spec fn frames_view(frames: Seq<Frame>) -> Seq<KeyFrame> {
    frames.map_values(|f: Frame| f@)
}

fn decoded_key(raw: &str) -> (r: String)
    ensures
        r@ == key_text(raw@),
{
    match decode_json_string(raw) {
        Some(k) => k,
        None => owned(raw),
    }
}

/// The first key that some object of `text` repeats, decoded; see
/// `first_duplicate_key`.
pub fn first_duplicate(text: &str) -> (r: (Option<String>, usize))
    ensures
        opt_view(r.0) == first_duplicate_key(text@),
        r.0 is Some ==> r.1 == first_duplicate_end(text@) && 0 < r.1 <= text@.len(),
{
    let n = text.unicode_len();
    let mut in_string = false;
    let mut escaped = false;
    let mut start: usize = 0;
    let mut frames: Vec<Frame> = Vec::new();
    let mut duplicate: Option<String> = None;
    let mut duplicate_end: usize = 0;
    let mut i: usize = 0;
    assert(frames_view(frames@) =~= Seq::<KeyFrame>::empty());
    while i < n
        invariant
            n == text@.len(),
            i <= n,
            start <= i,
            in_string ==> start < i,
            (ScanState {
                in_string,
                escaped,
                start: start as int,
                frames: frames_view(frames@),
                duplicate: opt_view(duplicate),
                duplicate_end: duplicate_end as int,
            }) == scan(text@, i as int),
            duplicate is Some ==> 0 < duplicate_end <= i,
        decreases n - i,
    {
        let c = text.get_char(i);
        let ghost before = frames_view(frames@);
        if duplicate.is_some() {
            // Once a key repeats, the rest of the text is not looked at.
        } else if in_string {
            if escaped {
                escaped = false;
            } else if c == '\\' {
                escaped = true;
            } else if c == '"' {
                in_string = false;
                escaped = false;
                let n_frames = frames.len();
                if n_frames > 0 && frames[n_frames - 1].is_object && frames[n_frames - 1].expect_key {
                    let raw = text.substring_char(start, i + 1);
                    let key = decoded_key(raw);
                    let mut top = frames.pop().unwrap();
                    assert(top@ == before.last());
                    if strings_contain(&top.keys, key.as_str()) {
                        frames.push(top);
                        assert(frames_view(frames@) =~= before);
                        duplicate = Some(key);
                        duplicate_end = i + 1;
                    } else {
                        let ghost old_keys = strings_view(top.keys@);
                        top.keys.push(key);
                        top.expect_key = false;
                        assert(strings_view(top.keys@) =~= old_keys.push(key_text(raw@)));
                        frames.push(top);
                        assert(frames_view(frames@) =~= before.update(
                            before.len() - 1,
                            KeyFrame { expect_key: false, keys: old_keys.push(key_text(raw@)), ..before.last() },
                        ));
                    }
                }
            }
        } else if c == '"' {
            in_string = true;
            escaped = false;
            start = i;
        } else if c == '{' {
            let frame = Frame { is_object: true, expect_key: true, keys: Vec::new() };
            assert(strings_view(frame.keys@) =~= Seq::<Seq<char>>::empty());
            frames.push(frame);
            assert(frames_view(frames@) =~= before.push(
                KeyFrame { is_object: true, expect_key: true, keys: Seq::empty() },
            ));
        } else if c == '[' {
            let frame = Frame { is_object: false, expect_key: false, keys: Vec::new() };
            assert(strings_view(frame.keys@) =~= Seq::<Seq<char>>::empty());
            frames.push(frame);
            assert(frames_view(frames@) =~= before.push(
                KeyFrame { is_object: false, expect_key: false, keys: Seq::empty() },
            ));
        } else if c == '}' || c == ']' {
            if frames.len() > 0 {
                frames.pop();
                assert(frames_view(frames@) =~= before.drop_last());
            }
        } else if c == ',' {
            let n_frames = frames.len();
            if n_frames > 0 && frames[n_frames - 1].is_object {
                let mut top = frames.pop().unwrap();
                assert(top@ == before.last());
                top.expect_key = true;
                frames.push(top);
                assert(frames_view(frames@) =~= before.update(
                    before.len() - 1,
                    KeyFrame { expect_key: true, ..before.last() },
                ));
            }
        }
        i = i + 1;
    }
    (duplicate, duplicate_end)
}

/// JSON whitespace.
pub open spec fn json_whitespace(c: char) -> bool {
    c == ' ' || c == '\n' || c == '\t' || c == '\r'
}

/// The first index from `i` on that is not JSON whitespace (or the end).
pub open spec fn skip_whitespace(text: Seq<char>, i: int) -> int
    decreases text.len() - i,
{
    if 0 <= i < text.len() && json_whitespace(text[i]) {
        skip_whitespace(text, i + 1)
    } else {
        i
    }
}

/// The number of line feeds in `s`.
pub open spec fn newline_count(s: Seq<char>) -> nat
    decreases s.len(),
{
    if s.len() == 0 {
        0
    } else {
        newline_count(s.drop_last()) + if s.last() == '\n' {
            1nat
        } else {
            0nat
        }
    }
}

/// Where the last line of `s` starts: just after its last line feed.
pub open spec fn last_line_start(s: Seq<char>) -> int
    decreases s.len(),
{
    if s.len() == 0 {
        0
    } else if s.last() == '\n' {
        s.len() as int
    } else {
        last_line_start(s.drop_last())
    }
}

pub(crate) proof fn lemma_last_line_start_bounds(s: Seq<char>)
    ensures
        0 <= last_line_start(s) <= s.len(),
    decreases s.len(),
{
    if s.len() > 0 {
        lemma_last_line_start_bounds(s.drop_last());
    }
}

fn whitespace_at(text: &str, j: usize) -> (r: bool)
    requires
        j < text@.len(),
    ensures
        r == json_whitespace(text@[j as int]),
{
    let c = text.get_char(j);
    c == ' ' || c == '\n' || c == '\t' || c == '\r'
}

/// The skip of whitespace from `i`, in code.
pub fn skip_ws(text: &str, i: usize) -> (r: usize)
    requires
        i <= text@.len(),
    ensures
        r as int == skip_whitespace(text@, i as int),
        i <= r <= text@.len(),
{
    let n = text.unicode_len();
    let mut j = i;
    while j < n && whitespace_at(text, j)
        invariant
            n == text@.len(),
            i <= j <= n,
            skip_whitespace(text@, i as int) == skip_whitespace(text@, j as int),
        decreases n - j,
    {
        j = j + 1;
    }
    j
}

/// The line number (from 1) and the start of the last line of the first
/// `q` characters, in code.
pub fn line_and_start(text: &str, q: usize) -> (r: (usize, usize))
    requires
        q <= text@.len(),
        q < usize::MAX,
    ensures
        r.0 == 1 + newline_count(text@.subrange(0, q as int)),
        r.1 as int == last_line_start(text@.subrange(0, q as int)),
        r.1 <= q,
{
    let mut line: usize = 1;
    let mut start: usize = 0;
    let mut i: usize = 0;
    while i < q
        invariant
            q <= text@.len(),
            q < usize::MAX,
            i <= q,
            line == 1 + newline_count(text@.subrange(0, i as int)),
            start as int == last_line_start(text@.subrange(0, i as int)),
            start <= i,
            line <= i + 1,
        decreases q - i,
    {
        let c = text.get_char(i);
        proof {
            assert(text@.subrange(0, i + 1).drop_last() =~= text@.subrange(0, i as int));
        }
        if c == '\n' {
            line = line + 1;
            start = i + 1;
        }
        i = i + 1;
    }
    (line, start)
}

} // verus!
