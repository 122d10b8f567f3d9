//! The two progress-line parsing strategies.
//!
//! Every line the downloader process prints is tried first against the
//! template strategy (fields joined by `|`), then against the free-text
//! strategy (a `[download]` line with a percent token). The first success
//! wins; a line matching neither may still mark the merge phase. The
//! parsers are pure: they keep no state between lines.

use vstd::prelude::*;

use crate::percent::{
    clamp_centi, decimal_centi, keep_numeral_chars, keep_numeral_chars_str, parse_percent,
    valid_decimal,
};
use crate::text::{
    contains_str, find_char, find_char_exec, find_str, find_sub, first_token, first_token_str,
    has_substring, is_space, remove_all, remove_all_str, strip_trailing, strip_trailing_str,
    trim_spec, trim_str,
};

verus! {

/// What one line of output contributed: a percent value in hundredths and
/// the human-readable speed and ETA fields.
pub struct ProgressUpdate {
    pub percent_centi: i64,
    pub speed: String,
    pub eta: String,
}

/// The mathematical content of a `ProgressUpdate`.
pub struct UpdateView {
    pub percent_centi: int,
    pub speed: Seq<char>,
    pub eta: Seq<char>,
}

impl View for ProgressUpdate {
    type V = UpdateView;

    open spec fn view(&self) -> UpdateView {
        UpdateView {
            percent_centi: self.percent_centi as int,
            speed: self.speed@,
            eta: self.eta@,
        }
    }
}

/// The template strategy: `line` split on `|` must give at least three
/// fields. The first field, sanitised to numeral characters, is the percent;
/// the second and third are speed and ETA, trimmed and with every `N/A`
/// marker blanked.
pub open spec fn template_parse(line: Seq<char>) -> Option<UpdateView> {
    let i1 = find_char(line, '|');
    if i1 < 0 {
        None
    } else {
        let rest1 = line.skip(i1 + 1);
        let i2 = find_char(rest1, '|');
        if i2 < 0 {
            None
        } else {
            let rest2 = rest1.skip(i2 + 1);
            let i3 = find_char(rest2, '|');
            let field2 = if i3 < 0 {
                rest2
            } else {
                rest2.subrange(0, i3)
            };
            let numeral = keep_numeral_chars(line.subrange(0, i1));
            if valid_decimal(numeral) {
                Some(
                    UpdateView {
                        percent_centi: clamp_centi(decimal_centi(numeral)),
                        speed: remove_all(trim_spec(rest1.subrange(0, i2)), "N/A"@),
                        eta: remove_all(trim_spec(field2), "N/A"@),
                    },
                )
            } else {
                None
            }
        }
    }
}

/// Position `p` ends a whitespace-delimited token with a trailing `%`.
pub open spec fn pct_end_at(s: Seq<char>, p: int) -> bool {
    &&& 0 <= p < s.len()
    &&& s[p] == '%'
    &&& (p + 1 == s.len() || is_space(s[p + 1]))
}

/// Position of the end of the first token that ends in `%`, or -1.
pub open spec fn find_pct_end(s: Seq<char>) -> int
    decreases s.len(),
{
    if s.len() == 0 {
        -1
    } else if s[0] == '%' && (s.len() == 1 || is_space(s[1])) {
        0
    } else {
        let r = find_pct_end(s.skip(1));
        if r < 0 {
            -1
        } else {
            r + 1
        }
    }
}

/// Start of the run of non-whitespace characters that ends at `p`.
pub open spec fn run_start(s: Seq<char>, p: int) -> int
    decreases p,
{
    if p <= 0 {
        0
    } else if is_space(s[p - 1]) {
        p
    } else {
        run_start(s, p - 1)
    }
}

/// The speed field of a free-text line: the token right after the first
/// `at ` marker, or empty when the marker is absent.
pub open spec fn free_text_speed(line: Seq<char>) -> Seq<char> {
    let a = find_sub(line, "at "@);
    if a < 0 {
        Seq::<char>::empty()
    } else {
        first_token(line.skip(a + 3))
    }
}

/// The ETA field of a free-text line: everything after the first `ETA `
/// marker, trimmed, or empty when the marker is absent.
pub open spec fn free_text_eta(line: Seq<char>) -> Seq<char> {
    let e = find_sub(line, "ETA "@);
    if e < 0 {
        Seq::<char>::empty()
    } else {
        trim_spec(line.skip(e + 4))
    }
}

/// The free-text strategy: the line must carry the `[download]` marker and
/// a whitespace-delimited token ending in `%` whose body is a numeral.
pub open spec fn free_text_parse(line: Seq<char>) -> Option<UpdateView> {
    if !has_substring(line, "[download]"@) {
        None
    } else {
        let p = find_pct_end(line);
        if p < 0 {
            None
        } else {
            let numeral = strip_trailing(line.subrange(run_start(line, p), p + 1), '%');
            if valid_decimal(numeral) {
                Some(
                    UpdateView {
                        percent_centi: clamp_centi(decimal_centi(numeral)),
                        speed: free_text_speed(line),
                        eta: free_text_eta(line),
                    },
                )
            } else {
                None
            }
        }
    }
}

/// The line announces a merge or post-processing phase.
pub open spec fn is_merge_line(line: Seq<char>) -> bool {
    ||| has_substring(line, "[Merger]"@)
    ||| has_substring(line, "[ExtractAudio]"@)
    ||| has_substring(line, "[ffmpeg]"@)
}

/// How one output line is classified, both strategies tried in order.
pub enum LineClass {
    Update(UpdateView),
    Merge,
    Ignore,
}

/// The classification of `line`: a progress update from either strategy, a
/// merge-phase marker, or a line carrying no progress information.
pub open spec fn classify_line(line: Seq<char>) -> LineClass {
    match template_parse(line) {
        Some(u) => LineClass::Update(u),
        None => match free_text_parse(line) {
            Some(u) => LineClass::Update(u),
            None => if is_merge_line(line) {
                LineClass::Merge
            } else {
                LineClass::Ignore
            },
        },
    }
}

/// The view of an optional update.
pub open spec fn update_opt_view(r: Option<ProgressUpdate>) -> Option<UpdateView> {
    match r {
        Some(u) => Some(u@),
        None => None,
    }
}

proof fn lemma_pct_end_shift(s: Seq<char>, j: int)
    requires
        s.len() >= 1,
        0 <= j,
    ensures
        pct_end_at(s.skip(1), j) == pct_end_at(s, j + 1),
{
    if j < s.skip(1).len() {
        assert(s.skip(1)[j] == s[j + 1]);
        if j + 1 < s.skip(1).len() {
            assert(s.skip(1)[j + 1] == s[j + 2]);
        }
    }
}

proof fn lemma_find_pct_end_first(s: Seq<char>, p: int)
    requires
        pct_end_at(s, p),
        forall|j: int| 0 <= j < p ==> !pct_end_at(s, j),
    ensures
        find_pct_end(s) == p,
    decreases p,
{
    if p == 0 {
    } else {
        assert(!pct_end_at(s, 0));
        lemma_pct_end_shift(s, p - 1);
        assert forall|j: int| 0 <= j < p - 1 implies !pct_end_at(s.skip(1), j) by {
            lemma_pct_end_shift(s, j);
        }
        lemma_find_pct_end_first(s.skip(1), p - 1);
    }
}

proof fn lemma_find_pct_end_absent(s: Seq<char>)
    requires
        forall|j: int| 0 <= j < s.len() ==> !pct_end_at(s, j),
    ensures
        find_pct_end(s) == -1,
    decreases s.len(),
{
    if s.len() > 0 {
        assert(!pct_end_at(s, 0));
        assert forall|j: int| 0 <= j < s.skip(1).len() implies !pct_end_at(s.skip(1), j) by {
            lemma_pct_end_shift(s, j);
        }
        lemma_find_pct_end_absent(s.skip(1));
    }
}

proof fn lemma_run_start_exact(s: Seq<char>, p: int, t: int)
    requires
        0 <= t <= p <= s.len(),
        forall|j: int| t <= j < p ==> !is_space(s[j]),
        t == 0 || is_space(s[t - 1]),
    ensures
        run_start(s, p) == t,
    decreases p - t,
{
    if t < p {
        assert(!is_space(s[p - 1]));
        lemma_run_start_exact(s, p - 1, t);
    }
}

/// Finds the end of the first whitespace-delimited token that ends in `%`.
fn find_pct_end_exec(s: &str) -> (r: Option<usize>)
    ensures
        match r {
            Some(p) => find_pct_end(s@) == p as int && pct_end_at(s@, p as int),
            None => find_pct_end(s@) == -1,
        },
{
    let n = s.unicode_len();
    let mut i: usize = 0;
    while i < n
        invariant
            i <= n,
            n == s@.len(),
            forall|j: int| 0 <= j < i ==> !pct_end_at(s@, j),
        decreases n - i,
    {
        if s.get_char(i) == '%' {
            let at_token_end = if i + 1 == n {
                true
            } else {
                let c2 = s.get_char(i + 1);
                c2 == ' ' || c2 == '\t' || c2 == '\n' || c2 == '\r'
            };
            if at_token_end {
                proof {
                    lemma_find_pct_end_first(s@, i as int);
                }
                return Some(i);
            }
        }
        i += 1;
    }
    proof {
        lemma_find_pct_end_absent(s@);
    }
    None
}

/// Finds the start of the non-whitespace run that ends at `p`.
fn run_start_exec(s: &str, p: usize) -> (r: usize)
    requires
        p <= s@.len(),
    ensures
        r as int == run_start(s@, p as int),
        r <= p,
{
    let mut t: usize = p;
    while t > 0
        invariant
            t <= p <= s@.len(),
            forall|j: int| t <= j < p ==> !is_space(s@[j]),
        ensures
            t <= p,
            forall|j: int| t <= j < p ==> !is_space(s@[j]),
            t == 0 || is_space(s@[t - 1]),
        decreases t,
    {
        let c = s.get_char(t - 1);
        if c == ' ' || c == '\t' || c == '\n' || c == '\r' {
            break;
        }
        t -= 1;
    }
    proof {
        lemma_run_start_exact(s@, p as int, t as int);
    }
    t
}

/// The template strategy on one line: at least three `|`-separated fields,
/// a numeral percent in the first, speed and ETA in the next two.
pub fn parse_progress_template(line: &str) -> (r: Option<ProgressUpdate>)
    ensures
        update_opt_view(r) == template_parse(line@),
{
    let n = line.unicode_len();
    let i1 = match find_char_exec(line, '|') {
        Some(i) => i,
        None => {
            return None;
        },
    };
    let rest1 = line.substring_char(i1 + 1, n);
    proof {
        assert(rest1@ =~= line@.skip(i1 + 1));
    }
    let n1 = rest1.unicode_len();
    let i2 = match find_char_exec(rest1, '|') {
        Some(i) => i,
        None => {
            return None;
        },
    };
    let rest2 = rest1.substring_char(i2 + 1, n1);
    proof {
        assert(rest2@ =~= rest1@.skip(i2 + 1));
    }
    let field2 = match find_char_exec(rest2, '|') {
        Some(i3) => rest2.substring_char(0, i3),
        None => rest2,
    };
    let field0 = line.substring_char(0, i1);
    let numeral = keep_numeral_chars_str(field0);
    let percent_centi = match parse_percent(numeral.as_str()) {
        Some(v) => v,
        None => {
            return None;
        },
    };
    let speed = remove_all_str(trim_str(rest1.substring_char(0, i2)), "N/A");
    let eta = remove_all_str(trim_str(field2), "N/A");
    Some(ProgressUpdate { percent_centi, speed, eta })
}

/// The free-text strategy on one line: a `[download]` line whose first
/// `%`-terminated token gives the percent, with `at ` and `ETA ` markers
/// giving speed and ETA.
pub fn parse_progress(line: &str) -> (r: Option<ProgressUpdate>)
    ensures
        update_opt_view(r) == free_text_parse(line@),
{
    if !contains_str(line, "[download]") {
        return None;
    }
    let n = line.unicode_len();
    let p = match find_pct_end_exec(line) {
        Some(p) => p,
        None => {
            return None;
        },
    };
    let t = run_start_exec(line, p);
    let token = line.substring_char(t, p + 1);
    let numeral = strip_trailing_str(token, '%');
    let percent_centi = match parse_percent(numeral) {
        Some(v) => v,
        None => {
            return None;
        },
    };
    let speed = match find_str(line, "at ") {
        Some(a) => {
            proof {
                reveal_strlit("at ");
            }
            let after = line.substring_char(a + 3, n);
            proof {
                assert(after@ =~= line@.skip(a + 3));
            }
            first_token_str(after).to_owned()
        },
        None => String::new(),
    };
    let eta = match find_str(line, "ETA ") {
        Some(e) => {
            proof {
                reveal_strlit("ETA ");
            }
            let after = line.substring_char(e + 4, n);
            proof {
                assert(after@ =~= line@.skip(e + 4));
            }
            trim_str(after).to_owned()
        },
        None => String::new(),
    };
    Some(ProgressUpdate { percent_centi, speed, eta })
}

/// The view of a classified line.
pub open spec fn parsed_line_view(r: &ParsedLine) -> LineClass {
    match r {
        ParsedLine::Update(u) => LineClass::Update(u@),
        ParsedLine::Merge => LineClass::Merge,
        ParsedLine::Ignore => LineClass::Ignore,
    }
}

/// The executable classification of one output line.
pub enum ParsedLine {
    Update(ProgressUpdate),
    Merge,
    Ignore,
}

/// Classifies one line of downloader output, trying the template strategy,
/// then the free-text strategy, then the merge-phase markers.
pub fn classify_progress_line(line: &str) -> (r: ParsedLine)
    ensures
        parsed_line_view(&r) == classify_line(line@),
{
    if let Some(u) = parse_progress_template(line) {
        return ParsedLine::Update(u);
    }
    if let Some(u) = parse_progress(line) {
        return ParsedLine::Update(u);
    }
    if contains_str(line, "[Merger]") || contains_str(line, "[ExtractAudio]") || contains_str(
        line,
        "[ffmpeg]",
    ) {
        return ParsedLine::Merge;
    }
    ParsedLine::Ignore
}

/// Both strategies only ever report a percent within the clamped range.
pub proof fn lemma_classified_percent_in_range(line: Seq<char>)
    ensures
        forall|u: UpdateView|
            classify_line(line) == LineClass::Update(u) ==> 0 <= u.percent_centi <= 10000,
{
}

} // verus!
