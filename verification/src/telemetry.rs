//! Telemetry events: the bounded failure categories, the scrubbing of error
//! messages before they leave the machine, and the fields each event carries.

use vstd::prelude::*;
use crate::text::{
    chars_of, char_utf8_width, is_ascii_letter, is_unicode_whitespace, is_whitespace, push_char, push_str,
    to_owned_string, utf8_length, utf8_width,
};

verus! {

/// Bounded set of failure categories, so that no free-form text (which
/// could hold personal data) names a failure.
#[derive(Debug, Clone, Copy, PartialEq, Eq, Structural)]
pub enum FailureReason {
    ConfigError,
    PolicyError,
    ProcessError,
    Timeout,
    InitError,
    Unknown,
}

pub open spec fn spec_failure_reason(r: FailureReason) -> Seq<char> {
    match r {
        FailureReason::ConfigError => "config_error"@,
        FailureReason::PolicyError => "policy_error"@,
        FailureReason::ProcessError => "process_error"@,
        FailureReason::Timeout => "timeout"@,
        FailureReason::InitError => "init_error"@,
        FailureReason::Unknown => "unknown"@,
    }
}

impl FailureReason {
    /// The category's wire name.
    pub fn as_str(&self) -> (r: &'static str)
        ensures
            r@ == spec_failure_reason(*self),
    {
        match self {
            FailureReason::ConfigError => "config_error",
            FailureReason::PolicyError => "policy_error",
            FailureReason::ProcessError => "process_error",
            FailureReason::Timeout => "timeout",
            FailureReason::InitError => "init_error",
            FailureReason::Unknown => "unknown",
        }
    }
}

pub const PATH_PLACEHOLDER: &'static str = "<path>";
pub const MAX_MESSAGE_BYTES: usize = 256;
pub const ELLIPSIS: &'static str = "...";

/// A character that ends a path: whitespace or a quote.
pub open spec fn ends_path(c: char) -> bool {
    is_unicode_whitespace(c) || c == '\'' || c == '"'
}

/// The first index at or after `j` whose character ends a path, or the
/// length of `s` when there is none.
pub open spec fn path_end(s: Seq<char>, j: int) -> int
    decreases s.len() - j,
{
    if j >= s.len() {
        s.len() as int
    } else if ends_path(s[j]) {
        j
    } else {
        path_end(s, j + 1)
    }
}

/// `s` holds `p` from index `start` on.
pub open spec fn holds_at(s: Seq<char>, start: int, p: Seq<char>) -> bool {
    0 <= start && start + p.len() <= s.len() && s.subrange(start, start + p.len()) == p
}

/// A Windows path starts at `i`: an ASCII letter, a colon, a backslash.
pub open spec fn windows_path_at(s: Seq<char>, i: int) -> bool {
    0 <= i && i + 2 < s.len() && is_ascii_letter(s[i]) && s[i + 1] == ':' && s[i + 2] == '\\'
}

/// A Unix path under a well-known root starts at `i`.
pub open spec fn unix_path_at(s: Seq<char>, i: int) -> bool {
    0 <= i < s.len() && s[i] == '/' && (
        holds_at(s, i + 1, "home/"@) || holds_at(s, i + 1, "tmp/"@) || holds_at(s, i + 1, "var/"@)
        || holds_at(s, i + 1, "usr/"@) || holds_at(s, i + 1, "etc/"@) || holds_at(s, i + 1, "root/"@)
        || holds_at(s, i + 1, "mnt/"@) || holds_at(s, i + 1, "opt/"@))
}

/// The text from index `i` on with every path replaced by `<path>`: a path
/// runs to the next whitespace or quote, which is kept.
pub open spec fn scrub_from(s: Seq<char>, i: int) -> Seq<char>
    decreases s.len() - i,
{
    if i < 0 || i >= s.len() {
        Seq::empty()
    } else if windows_path_at(s, i) || unix_path_at(s, i) {
        let e = path_end(s, i + 1);
        if e < s.len() {
            proof { lemma_path_end_bounds(s, i + 1); }
            PATH_PLACEHOLDER@ + seq![s[e]] + scrub_from(s, e + 1)
        } else {
            PATH_PLACEHOLDER@
        }
    } else {
        seq![s[i]] + scrub_from(s, i + 1)
    }
}

/// How many leading characters of `s` fit in `n` bytes of UTF-8.
pub open spec fn fit_count(s: Seq<char>, n: nat) -> nat
    decreases s.len(),
{
    if s.len() == 0 {
        0
    } else if utf8_width(s[0]) <= n {
        1 + fit_count(s.drop_first(), (n - utf8_width(s[0])) as nat)
    } else {
        0
    }
}

/// A text of more than 256 bytes cut at the last character boundary within
/// 253 bytes, with `...` appended.
pub open spec fn spec_truncate(s: Seq<char>) -> Seq<char> {
    if utf8_length(s) > 256 {
        s.take(fit_count(s, 253) as int) + ELLIPSIS@
    } else {
        s
    }
}

/// An error message with file paths (which may name users) replaced by
/// `<path>`, and cut to at most 256 bytes.
pub open spec fn spec_sanitize(msg: Seq<char>) -> Seq<char> {
    spec_truncate(scrub_from(msg, 0))
}

/// Where a path ends: at or after its start, within the text, on a
/// character that ends paths.
pub proof fn lemma_path_end_bounds(s: Seq<char>, j: int)
    requires
        0 <= j,
    ensures
        j <= path_end(s, j) || (j > s.len() && path_end(s, j) == s.len()),
        path_end(s, j) <= s.len() || j > s.len(),
        path_end(s, j) < s.len() ==> ends_path(s[path_end(s, j)]),
    decreases s.len() - j,
{
    if j < s.len() && !ends_path(s[j]) {
        lemma_path_end_bounds(s, j + 1);
    }
}

proof fn lemma_utf8_length_push(s: Seq<char>, c: char)
    ensures
        utf8_length(s.push(c)) == utf8_length(s) + utf8_width(c),
{
    assert(s.push(c).drop_last() =~= s);
}

proof fn lemma_utf8_length_concat(a: Seq<char>, b: Seq<char>)
    ensures
        utf8_length(a + b) == utf8_length(a) + utf8_length(b),
    decreases b.len(),
{
    if b.len() > 0 {
        lemma_utf8_length_concat(a, b.drop_last());
        assert((a + b).drop_last() =~= a + b.drop_last());
    } else {
        assert(a + b =~= a);
    }
}

proof fn lemma_utf8_length_prefix(s: Seq<char>, i: int)
    requires
        0 <= i <= s.len(),
    ensures
        utf8_length(s.take(i)) <= utf8_length(s),
    decreases s.len() - i,
{
    if i < s.len() {
        lemma_utf8_length_prefix(s, i + 1);
        assert(s.take(i + 1).drop_last() =~= s.take(i));
    } else {
        assert(s.take(i) =~= s);
    }
}

/// Whether `cs` holds `p` from index `start` on.
fn holds_at_exec(cs: &Vec<char>, start: usize, p: &str) -> (r: bool)
    ensures
        r == holds_at(cs@, start as int, p@),
{
    let pc = chars_of(p);
    if pc.len() > cs.len() || start > cs.len() - pc.len() {
        return false;
    }
    let mut k: usize = 0;
    while k < pc.len()
        invariant
            pc@ == p@,
            start + pc.len() <= cs.len(),
            k <= pc.len(),
            forall|m: int| 0 <= m < k ==> cs@[start + m] == pc@[m],
        decreases pc.len() - k,
    {
        if cs[start + k] != pc[k] {
            assert(cs@.subrange(start as int, start + p@.len())[k as int] != p@[k as int]);
            return false;
        }
        k = k + 1;
    }
    assert(cs@.subrange(start as int, start + p@.len()) =~= p@);
    true
}

fn unix_path_at_exec(cs: &Vec<char>, i: usize) -> (r: bool)
    requires
        i < cs.len(),
    ensures
        r == unix_path_at(cs@, i as int),
{
    if cs[i] != '/' {
        return false;
    }
    holds_at_exec(cs, i + 1, "home/") || holds_at_exec(cs, i + 1, "tmp/") || holds_at_exec(cs, i + 1, "var/")
        || holds_at_exec(cs, i + 1, "usr/") || holds_at_exec(cs, i + 1, "etc/") || holds_at_exec(cs, i + 1, "root/")
        || holds_at_exec(cs, i + 1, "mnt/") || holds_at_exec(cs, i + 1, "opt/")
}

fn windows_path_at_exec(cs: &Vec<char>, i: usize) -> (r: bool)
    requires
        i < cs.len(),
    ensures
        r == windows_path_at(cs@, i as int),
{
    let c = cs[i];
    let letter = ('a' <= c && c <= 'z') || ('A' <= c && c <= 'Z');
    letter && cs.len() - i > 2 && cs[i + 1] == ':' && cs[i + 2] == '\\'
}

/// The text with paths replaced (see [`scrub_from`]).
fn scrub(msg: &str) -> (r: String)
    ensures
        r@ == scrub_from(msg@, 0),
{
    let cs = chars_of(msg);
    let ghost s = cs@;
    let n = cs.len();
    let mut out = String::new();
    let mut i: usize = 0;
    while i < n
        invariant
            s == cs@,
            s == msg@,
            n == s.len(),
            i <= n,
            out@ + scrub_from(s, i as int) == scrub_from(s, 0),
        decreases n - i,
    {
        if windows_path_at_exec(&cs, i) || unix_path_at_exec(&cs, i) {
            let mut k: usize = i + 1;
            while k < n && !(is_whitespace(cs[k]) || cs[k] == '\'' || cs[k] == '"')
                invariant
                    s == cs@,
                    n == s.len(),
                    i < n,
                    i + 1 <= k <= n,
                    path_end(s, i as int + 1) == path_end(s, k as int),
                decreases n - k,
            {
                k = k + 1;
            }
            assert(path_end(s, i as int + 1) == k) by {
                if k < n {
                    assert(ends_path(s[k as int]));
                }
            }
            let ghost before = out@;
            push_str(&mut out, PATH_PLACEHOLDER);
            if k < n {
                push_char(&mut out, cs[k]);
                assert(scrub_from(s, i as int) == PATH_PLACEHOLDER@ + seq![s[k as int]] + scrub_from(s, k + 1));
                assert(out@ + scrub_from(s, k + 1) =~= before + scrub_from(s, i as int));
                i = k + 1;
            } else {
                assert(scrub_from(s, i as int) == PATH_PLACEHOLDER@);
                assert(scrub_from(s, n as int) =~= Seq::<char>::empty());
                assert(out@ + scrub_from(s, n as int) =~= before + scrub_from(s, i as int));
                i = n;
            }
        } else {
            let ghost before = out@;
            push_char(&mut out, cs[i]);
            assert(out@ + scrub_from(s, i + 1) =~= before + scrub_from(s, i as int));
            i = i + 1;
        }
    }
    assert(scrub_from(s, n as int) =~= Seq::<char>::empty());
    assert(out@ =~= out@ + scrub_from(s, n as int));
    out
}

/// `s` cut to at most 256 bytes (see [`spec_truncate`]).
fn truncate_message(s: String) -> (r: String)
    ensures
        r@ == spec_truncate(s@),
        utf8_length(r@) <= MAX_MESSAGE_BYTES,
{
    let cs = chars_of(s.as_str());
    let ghost t = cs@;
    let n = cs.len();
    let mut total: usize = 0;
    let mut i: usize = 0;
    assert(t.take(0) =~= Seq::<char>::empty());
    while i < n && total <= MAX_MESSAGE_BYTES
        invariant
            t == cs@,
            t == s@,
            n == t.len(),
            i <= n,
            total == utf8_length(t.take(i as int)),
            total <= MAX_MESSAGE_BYTES + 4,
        decreases n - i,
    {
        let w = char_utf8_width(cs[i]);
        proof {
            assert(t.take(i + 1) =~= t.take(i as int).push(t[i as int]));
            lemma_utf8_length_push(t.take(i as int), t[i as int]);
        }
        total = total + w;
        i = i + 1;
    }
    if total <= MAX_MESSAGE_BYTES {
        assert(t.take(i as int) =~= t);
        return s;
    }
    proof { lemma_utf8_length_prefix(t, i as int); }
    let budget: usize = MAX_MESSAGE_BYTES - 3;
    let mut used: usize = 0;
    let mut j: usize = 0;
    let mut out = String::new();
    assert(t.skip(0) =~= t);
    assert(t.take(0) =~= Seq::<char>::empty());
    while j < n && used + char_utf8_width(cs[j]) <= budget
        invariant
            t == cs@,
            n == t.len(),
            j <= n,
            used <= budget,
            budget == 253,
            used == utf8_length(t.take(j as int)),
            out@ == t.take(j as int),
            fit_count(t, 253) == j + fit_count(t.skip(j as int), (253 - used) as nat),
        decreases n - j,
    {
        let w = char_utf8_width(cs[j]);
        proof {
            assert(t.skip(j as int)[0] == t[j as int]);
            assert(t.skip(j as int).drop_first() =~= t.skip(j + 1));
            assert(t.take(j + 1) =~= t.take(j as int).push(t[j as int]));
            lemma_utf8_length_push(t.take(j as int), t[j as int]);
        }
        push_char(&mut out, cs[j]);
        used = used + w;
        j = j + 1;
    }
    proof {
        if j < n {
            assert(t.skip(j as int)[0] == t[j as int]);
        } else {
            assert(t.skip(j as int).len() == 0);
        }
        assert(fit_count(t.skip(j as int), (253 - used) as nat) == 0);
    }
    let ghost kept = out@;
    push_str(&mut out, ELLIPSIS);
    proof {
        reveal_strlit("...");
        lemma_utf8_length_concat(kept, ELLIPSIS@);
        assert(utf8_length(ELLIPSIS@) == 3) by {
            reveal_with_fuel(utf8_length, 4);
            assert(ELLIPSIS@ =~= seq!['.', '.', '.']);
            assert(seq!['.', '.', '.'].drop_last() =~= seq!['.', '.']);
            assert(seq!['.', '.'].drop_last() =~= seq!['.']);
            assert(seq!['.'].drop_last() =~= Seq::<char>::empty());
        }
    }
    out
}

/// Scrubs an error message for telemetry: paths under well-known roots and
/// Windows drive paths become `<path>`, and the result is cut to at most
/// 256 bytes (see [`spec_sanitize`]).
pub fn sanitize_error_message(msg: &str) -> (r: String)
    ensures
        r@ == spec_sanitize(msg@),
        vstd::utf8::encode_utf8(r@).len() <= 256,
        path_free(r@),
{
    let scrubbed = scrub(msg);
    let r = truncate_message(scrubbed);
    proof {
        crate::text::lemma_utf8_length_encoding(r@);
        lemma_scrub_path_free(msg@, 0);
        lemma_truncate_path_free(scrub_from(msg@, 0));
    }
    r
}

/// No Windows drive path and no path under a watched Unix root starts
/// anywhere in `o`.
pub open spec fn path_free(o: Seq<char>) -> bool {
    forall|p: int| #![trigger windows_path_at(o, p)] #![trigger unix_path_at(o, p)]
        !windows_path_at(o, p) && !unix_path_at(o, p)
}

/// A text that no `<` interrupts, read at the start of the scrubbed text
/// from `j`, stands at `j` in the input.
proof fn lemma_scrub_prefix(s: Seq<char>, j: int, t: Seq<char>)
    requires
        0 <= j,
        t.len() >= 1,
        forall|k: int| 0 <= k < t.len() ==> t[k] != '<',
        holds_at(scrub_from(s, j), 0, t),
    ensures
        holds_at(s, j, t),
    decreases t.len(),
{
    reveal_strlit("<path>");
    let o = scrub_from(s, j);
    assert(o[0] == t[0]) by {
        assert(o.subrange(0, t.len() as int)[0] == o[0]);
    }
    if j < s.len() && !(windows_path_at(s, j) || unix_path_at(s, j)) {
        let rest = scrub_from(s, j + 1);
        assert(o == seq![s[j]] + rest);
        if t.len() > 1 {
            let u = t.drop_first();
            assert(rest.subrange(0, u.len() as int) =~= o.subrange(1, t.len() as int));
            assert(o.subrange(1, t.len() as int) =~= t.subrange(1, t.len() as int));
            assert(u =~= t.subrange(1, t.len() as int));
            assert forall|k: int| 0 <= k < u.len() implies u[k] != '<' by {
                assert(u[k] == t[k + 1]);
            }
            lemma_scrub_prefix(s, j + 1, u);
            assert(s.subrange(j, j + t.len()) =~= t) by {
                assert forall|k: int| 0 <= k < t.len() implies s.subrange(j, j + t.len())[k] == t[k] by {
                    if k > 0 {
                        assert(s.subrange(j + 1, j + 1 + u.len())[k - 1] == u[k - 1]);
                    }
                }
            }
        } else {
            assert(s.subrange(j, j + 1) =~= t);
        }
    } else if j < s.len() {
        if path_end(s, j + 1) < s.len() {
            assert(o == PATH_PLACEHOLDER@ + seq![s[path_end(s, j + 1)]] + scrub_from(s, path_end(s, j + 1) + 1));
        } else {
            assert(o == PATH_PLACEHOLDER@);
        }
        assert(o[0] == '<');
    } else {
        assert(o.len() == 0);
    }
}

/// Whether a path starts at `p` of `a + b`, for `p` inside `b`.
proof fn lemma_paths_shift(a: Seq<char>, b: Seq<char>, p: int)
    requires
        p >= a.len(),
    ensures
        windows_path_at(a + b, p) == windows_path_at(b, p - a.len()),
        unix_path_at(a + b, p) == unix_path_at(b, p - a.len()),
{
    let o = a + b;
    let q = p - a.len();
    assert forall|t: Seq<char>| #[trigger] holds_at(o, p + 1, t) == holds_at(b, q + 1, t) by {
        if p + 1 + t.len() <= o.len() {
            assert(o.subrange(p + 1, p + 1 + t.len()) =~= b.subrange(q + 1, q + 1 + t.len()));
        }
    }
}

/// The scrubbed text holds no path.
pub proof fn lemma_scrub_path_free(s: Seq<char>, i: int)
    ensures
        path_free(scrub_from(s, i)),
    decreases s.len() - i,
{
    reveal_strlit("<path>");
    reveal_strlit(":\\");
    let o = scrub_from(s, i);
    if i < 0 || i >= s.len() {
        assert(o.len() == 0);
        assert forall|p: int| !(#[trigger] windows_path_at(o, p)) && !unix_path_at(o, p) by {}
    } else if windows_path_at(s, i) || unix_path_at(s, i) {
        let e = path_end(s, i + 1);
        lemma_path_end_bounds(s, i + 1);
        if e < s.len() {
            let head = PATH_PLACEHOLDER@ + seq![s[e]];
            let rest = scrub_from(s, e + 1);
            lemma_scrub_path_free(s, e + 1);
            assert(o == head + rest);
            assert(ends_path(s[e]));
            assert forall|p: int| !(#[trigger] windows_path_at(o, p)) && !unix_path_at(o, p) by {
                if p >= head.len() {
                    lemma_paths_shift(head, rest, p);
                    assert(!windows_path_at(rest, p - head.len()));
                }
            }
        } else {
            assert(o == PATH_PLACEHOLDER@);
            assert(o =~= seq!['<', 'p', 'a', 't', 'h', '>']);
            assert forall|p: int| !(#[trigger] windows_path_at(o, p)) && !unix_path_at(o, p) by {}
        }
        assert(path_free(o));
    } else {
        let rest = scrub_from(s, i + 1);
        lemma_scrub_path_free(s, i + 1);
        let head = seq![s[i]];
        assert(o == head + rest);
        assert forall|p: int| !(#[trigger] windows_path_at(o, p)) && !unix_path_at(o, p) by {
            if p >= 1 {
                lemma_paths_shift(head, rest, p);
                assert(!windows_path_at(rest, p - 1));
            } else if p == 0 {
                if windows_path_at(o, 0) {
                    let t = ":\\"@;
                    assert(rest.subrange(0, 2) =~= t) by {
                        assert(rest[0] == o[1]);
                        assert(rest[1] == o[2]);
                    }
                    lemma_scrub_prefix(s, i + 1, t);
                    assert(s[i + 1] == ':' && s[i + 2] == '\\') by {
                        assert(s.subrange(i + 1, i + 3)[0] == s[i + 1]);
                        assert(s.subrange(i + 1, i + 3)[1] == s[i + 2]);
                    }
                    assert(windows_path_at(s, i));
                }
                if unix_path_at(o, 0) {
                    assert forall|t: Seq<char>| holds_at(o, 1, t) && (forall|k: int| 0 <= k < t.len() ==> t[k] != '<') && t.len() >= 1
                        implies #[trigger] holds_at(s, i + 1, t) by {
                        assert(rest.subrange(0, t.len() as int) =~= o.subrange(1, 1 + t.len() as int));
                        lemma_scrub_prefix(s, i + 1, t);
                    }
                    reveal_strlit("home/");
                    reveal_strlit("tmp/");
                    reveal_strlit("var/");
                    reveal_strlit("usr/");
                    reveal_strlit("etc/");
                    reveal_strlit("root/");
                    reveal_strlit("mnt/");
                    reveal_strlit("opt/");
                    assert(unix_path_at(s, i));
                }
            }
        }
    }
}

proof fn lemma_fit_count_bound(s: Seq<char>, n: nat)
    ensures
        fit_count(s, n) <= s.len(),
    decreases s.len(),
{
    if s.len() > 0 && utf8_width(s[0]) <= n {
        lemma_fit_count_bound(s.drop_first(), (n - utf8_width(s[0])) as nat);
    }
}

/// Cutting a path-free text and appending `...` keeps it path-free.
pub proof fn lemma_truncate_path_free(o: Seq<char>)
    requires
        path_free(o),
    ensures
        path_free(spec_truncate(o)),
{
    reveal_strlit("...");
    if utf8_length(o) > 256 {
        lemma_fit_count_bound(o, 253);
        let k = fit_count(o, 253) as int;
        let t = o.take(k) + ELLIPSIS@;
        assert(ELLIPSIS@ =~= seq!['.', '.', '.']);
        assert forall|j: int| 0 <= j < t.len() implies #[trigger] t[j] == (if j < k { o[j] } else { '.' }) by {}
        assert forall|p: int| !(#[trigger] windows_path_at(t, p)) && !unix_path_at(t, p) by {
            if windows_path_at(t, p) {
                assert(t[p + 1] == ':' && t[p + 2] == '\\');
                assert(p + 2 < k);
                assert(windows_path_at(o, p));
            }
            if unix_path_at(t, p) {
                assert(t[p] == '/');
                assert(p < k);
                assert forall|pre: Seq<char>| #[trigger] holds_at(t, p + 1, pre) && (forall|m: int| 0 <= m < pre.len() ==> pre[m] != '.')
                    implies holds_at(o, p + 1, pre) by {
                    if p + 1 + pre.len() > k {
                        let m = k - (p + 1);
                        assert(t.subrange(p + 1, p + 1 + pre.len())[m] == t[k]);
                        assert(pre[m] == '.');
                    } else {
                        assert(t.subrange(p + 1, p + 1 + pre.len()) =~= o.subrange(p + 1, p + 1 + pre.len()));
                    }
                }
                reveal_strlit("home/");
                reveal_strlit("tmp/");
                reveal_strlit("var/");
                reveal_strlit("usr/");
                reveal_strlit("etc/");
                reveal_strlit("root/");
                reveal_strlit("mnt/");
                reveal_strlit("opt/");
                assert(unix_path_at(o, p));
            }
        }
    }
}

/// The first `fit_count(s, n)` characters of `s` take at most `n` bytes.
proof fn lemma_fit_prefix_length(s: Seq<char>, n: nat)
    ensures
        fit_count(s, n) <= s.len(),
        utf8_length(s.take(fit_count(s, n) as int)) <= n,
    decreases s.len(),
{
    lemma_fit_count_bound(s, n);
    if s.len() > 0 && utf8_width(s[0]) <= n {
        let rest = s.drop_first();
        let m = (n - utf8_width(s[0])) as nat;
        lemma_fit_prefix_length(rest, m);
        let k = fit_count(rest, m) as int;
        assert(s.take(k + 1) =~= seq![s[0]] + rest.take(k));
        lemma_utf8_length_concat(seq![s[0]], rest.take(k));
        assert(seq![s[0]] =~= Seq::<char>::empty().push(s[0]));
        lemma_utf8_length_push(Seq::<char>::empty(), s[0]);
    } else {
        assert(s.take(0) =~= Seq::<char>::empty());
    }
}

/// A cut text takes at most 256 bytes.
proof fn lemma_truncate_length(o: Seq<char>)
    ensures
        utf8_length(spec_truncate(o)) <= 256,
{
    if utf8_length(o) > 256 {
        reveal_strlit("...");
        lemma_fit_prefix_length(o, 253);
        let kept = o.take(fit_count(o, 253) as int);
        lemma_utf8_length_concat(kept, ELLIPSIS@);
        assert(utf8_length(ELLIPSIS@) == 3) by {
            reveal_with_fuel(utf8_length, 4);
            assert(ELLIPSIS@ =~= seq!['.', '.', '.']);
            assert(seq!['.', '.', '.'].drop_last() =~= seq!['.', '.']);
            assert(seq!['.', '.'].drop_last() =~= seq!['.']);
            assert(seq!['.'].drop_last() =~= Seq::<char>::empty());
        }
    }
}

/// Scrubbing a text that holds no path leaves it as it is.
proof fn lemma_scrub_path_free_text(o: Seq<char>, i: int)
    requires
        path_free(o),
        0 <= i <= o.len(),
    ensures
        scrub_from(o, i) == o.subrange(i, o.len() as int),
    decreases o.len() - i,
{
    if i < o.len() {
        assert(!windows_path_at(o, i) && !unix_path_at(o, i));
        lemma_scrub_path_free_text(o, i + 1);
        assert(o.subrange(i, o.len() as int) =~= seq![o[i]] + o.subrange(i + 1, o.len() as int));
    } else {
        assert(o.subrange(i, o.len() as int) =~= Seq::<char>::empty());
    }
}

/// Sanitizing is idempotent: a sanitized message holds no path and fits in
/// 256 bytes, so sanitizing it again gives it back unchanged.
pub proof fn law_sanitize_idempotent(msg: Seq<char>)
    ensures
        spec_sanitize(spec_sanitize(msg)) == spec_sanitize(msg),
{
    let o = scrub_from(msg, 0);
    let r = spec_truncate(o);
    lemma_scrub_path_free(msg, 0);
    lemma_truncate_path_free(o);
    lemma_truncate_length(o);
    lemma_scrub_path_free_text(r, 0);
    assert(r.subrange(0, r.len() as int) =~= r);
}

/// The data of an MXC.Execution event.
pub struct ExecutionEvent<'a> {
    pub backend: &'a str,
    pub exit_code: i32,
    pub outcome: &'a str,
    pub duration_ms: u64,
    pub version: &'a str,
    pub failure_reason: Option<FailureReason>,
}

/// What an MXC.Execution event hands to the event writer.
pub struct ExecutionRecord {
    pub backend: String,
    pub exit_code: i32,
    pub outcome: String,
    pub duration_ms: u64,
    pub failure_reason: String,
}

/// What an MXC.Error event hands to the event writer.
pub struct ErrorRecord {
    pub backend: String,
    pub error_type: String,
    pub error_message: String,
}

/// The record of an MXC.Execution event: its fields, with the failure
/// category's name (empty when there is none). The version is not part of
/// the record; the event writer adds it.
pub fn log_execution(event: &ExecutionEvent) -> (r: ExecutionRecord)
    ensures
        r.backend@ == event.backend@,
        r.exit_code == event.exit_code,
        r.outcome@ == event.outcome@,
        r.duration_ms == event.duration_ms,
        r.failure_reason@ == match event.failure_reason {
            Some(f) => spec_failure_reason(f),
            None => Seq::empty(),
        },
{
    let failure = match event.failure_reason {
        Some(f) => f.as_str(),
        None => "",
    };
    proof { reveal_strlit(""); }
    ExecutionRecord {
        backend: to_owned_string(event.backend),
        exit_code: event.exit_code,
        outcome: to_owned_string(event.outcome),
        duration_ms: event.duration_ms,
        failure_reason: to_owned_string(failure),
    }
}

/// The record of an MXC.Error event: the backend, the category's name, and
/// the scrubbed message. The version is not part of the record.
pub fn log_error(backend: &str, error_type: FailureReason, error_message: &str, version: &str) -> (r: ErrorRecord)
    ensures
        r.backend@ == backend@,
        r.error_type@ == spec_failure_reason(error_type),
        r.error_message@ == spec_sanitize(error_message@),
{
    ErrorRecord {
        backend: to_owned_string(backend),
        error_type: to_owned_string(error_type.as_str()),
        error_message: sanitize_error_message(error_message),
    }
}

/// The text a C string made from `s` carries: everything before the first
/// NUL character.
pub open spec fn nul_free_prefix(s: Seq<char>) -> Seq<char>
    decreases s.len(),
{
    if s.len() == 0 {
        Seq::empty()
    } else if s[0] == '\0' {
        Seq::empty()
    } else {
        seq![s[0]] + nul_free_prefix(s.drop_first())
    }
}

/// The text of `s` up to its first NUL, as handed to the event writer.
pub fn to_cstring_lossy(s: &str) -> (r: String)
    ensures
        r@ == nul_free_prefix(s@),
{
    let cs = chars_of(s);
    let mut out = String::new();
    let mut i: usize = 0;
    assert(cs@.skip(0) =~= cs@);
    while i < cs.len() && cs[i] != '\0'
        invariant
            cs@ == s@,
            i <= cs.len(),
            out@ + nul_free_prefix(cs@.skip(i as int)) == nul_free_prefix(s@),
        decreases cs.len() - i,
    {
        let ghost before = out@;
        assert(cs@.skip(i as int)[0] == cs@[i as int]);
        assert(cs@.skip(i as int).drop_first() =~= cs@.skip(i + 1));
        push_char(&mut out, cs[i]);
        assert(out@ + nul_free_prefix(cs@.skip(i + 1)) =~= before + nul_free_prefix(cs@.skip(i as int)));
        i = i + 1;
    }
    if i < cs.len() {
        assert(cs@.skip(i as int)[0] == cs@[i as int]);
    }
    assert(nul_free_prefix(cs@.skip(i as int)) =~= Seq::<char>::empty());
    assert(out@ =~= out@ + nul_free_prefix(cs@.skip(i as int)));
    out
}

} // verus!
