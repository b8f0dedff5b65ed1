//! What the end-to-end harness makes of a finished executor process: its
//! combined output (with base64-encoded lines decoded), and the verdict on
//! its exit code and output.

use vstd::prelude::*;
use crate::encoding::{base64_decode, base64_standard_decode};
use crate::text::{
    chars_of, contains_str, has_substring, is_unicode_whitespace, is_whitespace, push_char, push_decimal,
    push_str, string_from_utf8, to_owned_string,
};

verus! {

/// A finished process: its label, exit code (`None` when it ended without
/// one), standard output and error as text, and wall-clock time.
#[derive(Debug)]
pub struct CommandResult {
    pub label: String,
    pub code: Option<i32>,
    pub stdout: String,
    pub stderr: String,
    pub wall_time_ms: u128,
}

/// Standard output, a line break, standard error.
pub open spec fn spec_combined(r: &CommandResult) -> Seq<char> {
    r.stdout@ + "\n"@ + r.stderr@
}

pub const MISSING_FILE: &'static str = "CreateProcessW failed: The system cannot find the file specified";
pub const UNSUPPORTED_BUILD: &'static str = "Unsupported Windows branch or build version";

/// A byte of the standard base64 alphabet, or the padding `=`.
pub open spec fn spec_is_base64_byte(b: u8) -> bool {
    (65 <= b && b <= 90) || (97 <= b && b <= 122) || (48 <= b && b <= 57) || b == 43 || b == 47 || b == 61
}

/// A character of the standard base64 alphabet, or `=`.
pub open spec fn is_base64_char(c: char) -> bool {
    ('A' <= c && c <= 'Z') || ('a' <= c && c <= 'z') || ('0' <= c && c <= '9') || c == '+' || c == '/' || c == '='
}

/// A line that may be base64-encoded text: at least 16 characters, a
/// multiple of 4, all from the base64 alphabet.
pub open spec fn spec_looks_like_base64(s: Seq<char>) -> bool {
    s.len() >= 16 && s.len() % 4 == 0 && forall|i: int| 0 <= i < s.len() ==> #[trigger] is_base64_char(s[i])
}

/// Whether a byte belongs to the base64 alphabet (with `=`).
pub fn is_base64_byte(byte: u8) -> (r: bool)
    ensures
        r == spec_is_base64_byte(byte),
{
    (65 <= byte && byte <= 90) || (97 <= byte && byte <= 122) || (48 <= byte && byte <= 57) || byte == 43 || byte == 47 || byte == 61
}

/// Whether a line looks like base64 text. (All its bytes must be from the
/// alphabet, so its byte count is its character count.)
pub fn looks_like_base64_text(line: &str) -> (r: bool)
    ensures
        r == spec_looks_like_base64(line@),
{
    let cs = chars_of(line);
    if cs.len() < 16 || cs.len() % 4 != 0 {
        return false;
    }
    let mut i: usize = 0;
    while i < cs.len()
        invariant
            cs@ == line@,
            i <= cs.len(),
            forall|k: int| 0 <= k < i ==> #[trigger] is_base64_char(cs@[k]),
        decreases cs.len() - i,
    {
        let c = cs[i];
        let ok = ('A' <= c && c <= 'Z') || ('a' <= c && c <= 'z') || ('0' <= c && c <= '9') || c == '+' || c == '/' || c == '=';
        if !ok {
            assert(!is_base64_char(line@[i as int]));
            return false;
        }
        i = i + 1;
    }
    true
}

/// `s` without leading whitespace.
pub open spec fn trim_start(s: Seq<char>) -> Seq<char>
    decreases s.len(),
{
    if s.len() > 0 && is_unicode_whitespace(s[0]) { trim_start(s.drop_first()) } else { s }
}

/// `s` without trailing whitespace.
pub open spec fn trim_end(s: Seq<char>) -> Seq<char>
    decreases s.len(),
{
    if s.len() > 0 && is_unicode_whitespace(s.last()) { trim_end(s.drop_last()) } else { s }
}

/// `s` without leading and trailing whitespace (std's `str::trim`).
pub open spec fn trim(s: Seq<char>) -> Seq<char> {
    trim_end(trim_start(s))
}

/// The pieces of `s` between line breaks (at least one, possibly empty).
pub open spec fn split_lines(s: Seq<char>) -> Seq<Seq<char>>
    decreases s.len(),
{
    if s.len() == 0 {
        seq![Seq::empty()]
    } else {
        let rest = split_lines(s.drop_last());
        if s.last() == '\n' {
            rest.push(Seq::empty())
        } else {
            rest.update(rest.len() - 1, rest.last().push(s.last()))
        }
    }
}

/// What a line of output decodes to: trimmed, it must look like base64,
/// decode, and be UTF-8.
pub open spec fn decoded_line(l: Seq<char>) -> Option<Seq<char>> {
    let t = trim(l);
    if t.len() > 0 && spec_looks_like_base64(t) {
        match base64_standard_decode(t) {
            Some(b) => if vstd::utf8::valid_utf8(b) { Some(vstd::utf8::decode_utf8(b)) } else { None },
            None => None,
        }
    } else {
        None
    }
}

/// The decodable lines' texts, in order.
pub open spec fn decoded_lines(ls: Seq<Seq<char>>) -> Seq<Seq<char>>
    decreases ls.len(),
{
    if ls.len() == 0 {
        Seq::empty()
    } else {
        let rest = decoded_lines(ls.drop_last());
        match decoded_line(ls.last()) {
            Some(t) => rest.push(t),
            None => rest,
        }
    }
}

/// The items separated by line breaks.
pub open spec fn join_lines(items: Seq<Seq<char>>) -> Seq<char>
    decreases items.len(),
{
    if items.len() == 0 {
        Seq::empty()
    } else if items.len() == 1 {
        items[0]
    } else {
        join_lines(items.drop_last()) + "\n"@ + items.last()
    }
}

/// The combined output, followed (after a line break) by the decoded text
/// of every base64 line in it, one per line, when there is any.
pub open spec fn spec_combined_with_decoded(combined: Seq<char>) -> Seq<char> {
    let decoded = decoded_lines(split_lines(combined));
    if decoded.len() == 0 { combined } else { combined + "\n"@ + join_lines(decoded) }
}

proof fn lemma_split_lines_nonempty(s: Seq<char>)
    ensures
        split_lines(s).len() >= 1,
    decreases s.len(),
{
    if s.len() > 0 {
        lemma_split_lines_nonempty(s.drop_last());
    }
}

/// The trimmed form of a line.
fn trim_chars(l: &Vec<char>) -> (r: String)
    ensures
        r@ == trim(l@),
{
    let n = l.len();
    let mut a: usize = 0;
    assert(l@.skip(0) =~= l@);
    while a < n && is_whitespace(l[a])
        invariant
            a <= n,
            n == l@.len(),
            trim_start(l@) == trim_start(l@.skip(a as int)),
        decreases n - a,
    {
        assert(l@.skip(a as int).drop_first() =~= l@.skip(a + 1));
        assert(l@.skip(a as int)[0] == l@[a as int]);
        a = a + 1;
    }
    proof {
        if a < n {
            assert(l@.skip(a as int)[0] == l@[a as int]);
        }
    }
    let ghost ts = l@.skip(a as int);
    assert(trim_start(l@) == ts);
    let mut b: usize = n;
    assert(ts.take(ts.len() as int) =~= ts);
    while b > a && is_whitespace(l[b - 1])
        invariant
            a <= b <= n,
            n == l@.len(),
            ts == l@.skip(a as int),
            trim_end(ts) == trim_end(ts.take(b - a)),
        decreases b,
    {
        assert(ts.take(b - a).drop_last() =~= ts.take(b - a - 1));
        assert(ts.take(b - a).last() == l@[b - 1]);
        b = b - 1;
    }
    proof {
        if b > a {
            assert(ts.take(b - a).last() == l@[b - 1]);
        }
    }
    let mut out = String::new();
    let mut k: usize = a;
    while k < b
        invariant
            a <= k <= b <= n,
            n == l@.len(),
            out@ == l@.subrange(a as int, k as int),
        decreases b - k,
    {
        push_char(&mut out, l[k]);
        assert(l@.subrange(a as int, k + 1) =~= l@.subrange(a as int, k as int).push(l@[k as int]));
        k = k + 1;
    }
    assert(ts.take(b - a) =~= l@.subrange(a as int, b as int));
    out
}

/// The decoded text of one line, if it has one (see [`decoded_line`]).
fn decode_line(l: &Vec<char>) -> (r: Option<String>)
    ensures
        match r {
            Some(t) => decoded_line(l@) == Some(t@),
            None => decoded_line(l@) is None,
        },
{
    let t = trim_chars(l);
    if t.as_str().unicode_len() == 0 || !looks_like_base64_text(t.as_str()) {
        return None;
    }
    match base64_decode(t.as_str()) {
        Some(bytes) => string_from_utf8(bytes),
        None => None,
    }
}

fn push_decoded(decoded: &mut Vec<String>, l: &Vec<char>)
    ensures
        crate::models::strings_view(final(decoded)@) == match decoded_line(l@) {
            Some(t) => crate::models::strings_view(old(decoded)@).push(t),
            None => crate::models::strings_view(old(decoded)@),
        },
{
    if let Some(t) = decode_line(l) {
        let ghost before = decoded@;
        decoded.push(t);
        assert(crate::models::strings_view(decoded@) =~= crate::models::strings_view(before).push(t@));
    }
}

fn join_with_newlines(items: &Vec<String>) -> (r: String)
    ensures
        r@ == join_lines(crate::models::strings_view(items@)),
{
    let mut r = String::new();
    let mut i: usize = 0;
    while i < items.len()
        invariant
            i <= items.len(),
            r@ == join_lines(crate::models::strings_view(items@).take(i as int)),
        decreases items.len() - i,
    {
        let ghost prev = crate::models::strings_view(items@).take(i as int);
        if i > 0 {
            push_str(&mut r, "\n");
        }
        push_str(&mut r, items[i].as_str());
        assert(crate::models::strings_view(items@).take(i + 1).drop_last() =~= prev);
        if i == 0 {
            assert(crate::models::strings_view(items@).take(1) =~= seq![items@[0]@]);
        }
        i = i + 1;
    }
    assert(crate::models::strings_view(items@).take(items.len() as int) =~= crate::models::strings_view(items@));
    r
}

impl CommandResult {
    /// Standard output and standard error, separated by a line break.
    pub fn combined_output(&self) -> (r: String)
        ensures
            r@ == spec_combined(self),
    {
        let mut s = to_owned_string(self.stdout.as_str());
        push_str(&mut s, "\n");
        push_str(&mut s, self.stderr.as_str());
        s
    }

    /// The combined output with the decoded text of its base64 lines
    /// appended (see [`spec_combined_with_decoded`]).
    pub fn combined_output_with_decoded_base64(&self) -> (r: String)
        ensures
            r@ == spec_combined_with_decoded(spec_combined(self)),
    {
        let combined = self.combined_output();
        let cs = chars_of(combined.as_str());
        let ghost s = cs@;
        let n = cs.len();
        let mut decoded: Vec<String> = Vec::new();
        let mut current: Vec<char> = Vec::new();
        let mut i: usize = 0;
        assert(s.take(0) =~= Seq::<char>::empty());
        assert(split_lines(Seq::<char>::empty()).drop_last() =~= Seq::<Seq<char>>::empty());
        assert(crate::models::strings_view(decoded@) =~= Seq::<Seq<char>>::empty());
        while i < n
            invariant
                s == cs@,
                n == s.len(),
                i <= n,
                split_lines(s.take(i as int)).len() >= 1,
                current@ == split_lines(s.take(i as int)).last(),
                crate::models::strings_view(decoded@) == decoded_lines(split_lines(s.take(i as int)).drop_last()),
            decreases n - i,
        {
            let ghost pieces = split_lines(s.take(i as int));
            assert(s.take(i + 1).drop_last() =~= s.take(i as int));
            assert(s.take(i + 1).last() == s[i as int]);
            if cs[i] == '\n' {
                push_decoded(&mut decoded, &current);
                current = Vec::new();
                assert(split_lines(s.take(i + 1)) == pieces.push(Seq::<char>::empty()));
                assert(pieces.push(Seq::<char>::empty()).drop_last() =~= pieces);
                assert(pieces.drop_last().push(pieces.last()) =~= pieces);
                assert(decoded_lines(pieces) == (match decoded_line(pieces.last()) {
                    Some(t) => decoded_lines(pieces.drop_last()).push(t),
                    None => decoded_lines(pieces.drop_last()),
                }));
            } else {
                current.push(cs[i]);
                let ghost next = pieces.update(pieces.len() - 1, pieces.last().push(s[i as int]));
                assert(split_lines(s.take(i + 1)) == next);
                assert(next.drop_last() =~= pieces.drop_last());
            }
            i = i + 1;
        }
        assert(s.take(n as int) =~= s);
        let ghost pieces = split_lines(s);
        push_decoded(&mut decoded, &current);
        assert(pieces.drop_last().push(pieces.last()) =~= pieces);
        if decoded.len() == 0 {
            combined
        } else {
            let mut out = combined;
            push_str(&mut out, "\n");
            let joined = join_with_newlines(&decoded);
            push_str(&mut out, joined.as_str());
            out
        }
    }

    /// Whether the process failed because this machine lacks a runtime the
    /// sandboxed process needs (a missing executable, an unsupported build).
    pub fn is_missing_process_prerequisite(&self) -> (r: bool)
        ensures
            r == (has_substring(spec_combined(self), MISSING_FILE@) || has_substring(spec_combined(self), UNSUPPORTED_BUILD@)),
    {
        let combined = self.combined_output();
        contains_str(combined.as_str(), MISSING_FILE) || contains_str(combined.as_str(), UNSUPPORTED_BUILD)
    }
}

/// The debug form of an optional exit code.
pub open spec fn code_debug(c: Option<i32>) -> Seq<char> {
    match c {
        Some(v) => "Some("@ + crate::driver::signed_decimal(v as int) + ")"@,
        None => "None"@,
    }
}

fn push_signed(s: &mut String, v: i32)
    ensures
        final(s)@ == old(s)@ + crate::driver::signed_decimal(v as int),
{
    if v < 0 {
        push_str(s, "-");
        let magnitude: u64 = (0i64 - v as i64) as u64;
        push_decimal(s, magnitude);
    } else {
        push_decimal(s, v as u64);
    }
}

/// The failure message for an unexpected exit code.
pub open spec fn exit_mismatch_msg(r: &CommandResult, expected: i32) -> Seq<char> {
    r.label@ + " failed: expected exit "@ + crate::driver::signed_decimal(expected as int) + ", got "@
        + code_debug(r.code) + "\n--- stdout ---\n"@ + r.stdout@ + "\n--- stderr ---\n"@ + r.stderr@
}

/// The failure message for output that lacks an expected text.
pub open spec fn output_missing_msg(r: &CommandResult, expected: Seq<char>) -> Seq<char> {
    r.label@ + " failed: output missing '"@ + expected + "'\n--- combined output ---\n"@
        + spec_combined_with_decoded(spec_combined(r))
}

/// The verdict on a finished process: it must have exited with
/// `expected_exit`, and its combined output (base64 lines decoded) must
/// hold `output_contains` when given. `Err` carries the failure message.
pub fn assert_exit(result: &CommandResult, expected_exit: i32, output_contains: Option<&str>) -> (r: Result<(), String>)
    ensures
        result.code != Some(expected_exit) ==> (r matches Err(m) && m@ == exit_mismatch_msg(result, expected_exit)),
        result.code == Some(expected_exit) ==> match output_contains {
            None => r is Ok,
            Some(e) => if has_substring(spec_combined_with_decoded(spec_combined(result)), e@) {
                r is Ok
            } else {
                r matches Err(m) && m@ == output_missing_msg(result, e@)
            },
        },
{
    let matches = match result.code {
        Some(c) => c == expected_exit,
        None => false,
    };
    if !matches {
        let mut m = to_owned_string(result.label.as_str());
        push_str(&mut m, " failed: expected exit ");
        push_signed(&mut m, expected_exit);
        push_str(&mut m, ", got ");
        match result.code {
            Some(c) => {
                push_str(&mut m, "Some(");
                push_signed(&mut m, c);
                push_str(&mut m, ")");
            },
            None => push_str(&mut m, "None"),
        }
        push_str(&mut m, "\n--- stdout ---\n");
        push_str(&mut m, result.stdout.as_str());
        push_str(&mut m, "\n--- stderr ---\n");
        push_str(&mut m, result.stderr.as_str());
        return Err(m);
    }
    if let Some(expected) = output_contains {
        let combined = result.combined_output_with_decoded_base64();
        if !contains_str(combined.as_str(), expected) {
            let mut m = to_owned_string(result.label.as_str());
            push_str(&mut m, " failed: output missing '");
            push_str(&mut m, expected);
            push_str(&mut m, "'\n--- combined output ---\n");
            push_str(&mut m, combined.as_str());
            return Err(m);
        }
    }
    Ok(())
}

/// The verdict that a process exited successfully (code 0).
pub fn assert_success(result: &CommandResult) -> (r: Result<(), String>)
    ensures
        result.code == Some(0i32) ==> r is Ok,
        result.code != Some(0i32) ==> (r matches Err(m) && m@ == exit_mismatch_msg(result, 0)),
{
    assert_exit(result, 0, None)
}


/// Whether the harness runs a release build.
pub fn is_release_mode(target: crate::config_parser::BuildTarget) -> (r: bool)
    ensures
        r == target.release,
{
    target.release
}

/// The arguments of an executor run on a configuration file: the extra
/// arguments, then the file's path.
pub fn config_run_args(extra_args: &Vec<String>, config_path: &str) -> (r: Vec<String>)
    ensures
        crate::models::strings_view(r@) == crate::models::strings_view(extra_args@).push(config_path@),
{
    let mut args: Vec<String> = Vec::new();
    let mut i: usize = 0;
    while i < extra_args.len()
        invariant
            i <= extra_args.len(),
            crate::models::strings_view(args@) == crate::models::strings_view(extra_args@).take(i as int),
        decreases extra_args.len() - i,
    {
        let ghost before = args@;
        args.push(to_owned_string(extra_args[i].as_str()));
        assert(crate::models::strings_view(args@) =~= crate::models::strings_view(before).push(extra_args@[i as int]@));
        assert(crate::models::strings_view(extra_args@).take(i + 1) =~= crate::models::strings_view(extra_args@).take(i as int).push(extra_args@[i as int]@));
        i = i + 1;
    }
    assert(crate::models::strings_view(extra_args@).take(extra_args.len() as int) =~= crate::models::strings_view(extra_args@));
    let ghost before = args@;
    args.push(to_owned_string(config_path));
    assert(crate::models::strings_view(args@) =~= crate::models::strings_view(before).push(config_path@));
    args
}

/// The arguments of an executor run on a state-aware request given as JSON
/// text: the extra arguments, then `--config-base64` and the request
/// encoded in base64, which the executor decodes back to the same text.
pub fn state_aware_run_args(extra_args: &Vec<String>, request_json: &str) -> (r: Vec<String>)
    requires
        vstd::utf8::encode_utf8(request_json@).len() <= usize::MAX / 2,
    ensures
        crate::models::strings_view(r@) == crate::models::strings_view(extra_args@)
            + seq!["--config-base64"@, crate::encoding::base64_standard_encode(vstd::utf8::encode_utf8(request_json@))],
        crate::config_parser::spec_decode_input(r@.last()@, true).0 == Ok::<Seq<char>, Seq<char>>(request_json@),
{
    let mut args = config_run_args(extra_args, "--config-base64");
    let encoded = crate::config_parser::encode_request_input(request_json);
    let ghost before = args@;
    args.push(encoded);
    assert(crate::models::strings_view(args@) =~= crate::models::strings_view(before).push(encoded@));
    args
}

/// The arguments of a test-driver run: the target, then the extra arguments.
pub fn driver_run_args(target_path: &str, extra_args: &Vec<String>) -> (r: Vec<String>)
    ensures
        crate::models::strings_view(r@) == seq![target_path@] + crate::models::strings_view(extra_args@),
{
    let mut args: Vec<String> = Vec::new();
    args.push(to_owned_string(target_path));
    let mut i: usize = 0;
    assert(crate::models::strings_view(args@) =~= seq![target_path@] + crate::models::strings_view(extra_args@).take(0));
    while i < extra_args.len()
        invariant
            i <= extra_args.len(),
            crate::models::strings_view(args@) == seq![target_path@] + crate::models::strings_view(extra_args@).take(i as int),
        decreases extra_args.len() - i,
    {
        let ghost before = args@;
        args.push(to_owned_string(extra_args[i].as_str()));
        assert(crate::models::strings_view(args@) =~= crate::models::strings_view(before).push(extra_args@[i as int]@));
        assert(crate::models::strings_view(extra_args@).take(i + 1) =~= crate::models::strings_view(extra_args@).take(i as int).push(extra_args@[i as int]@));
        i = i + 1;
    }
    assert(crate::models::strings_view(extra_args@).take(extra_args.len() as int) =~= crate::models::strings_view(extra_args@));
    args
}

} // verus!
