//! Decisions and parsing behind the individual commands.
//!
//! The commands themselves run processes and make requests; what stands here
//! is what they decide from plain text: which repository a URL names,
//! whether a clone should gain an upstream remote, and what the
//! connection-trace endpoint's body says.

use vstd::prelude::*;

use crate::json::{chars_to_string, str_to_chars, sub_chars};

verus! {

// ---------------------------------------------------------------------------
// Text helpers
// ---------------------------------------------------------------------------

/// Whether `s` begins with `p`.
pub open spec fn starts_with(s: Seq<char>, p: Seq<char>) -> bool {
    p.len() <= s.len() && s.take(p.len() as int) == p
}

/// Whether `s` ends with `p`.
pub open spec fn ends_with(s: Seq<char>, p: Seq<char>) -> bool {
    p.len() <= s.len() && s.skip(s.len() - p.len()) == p
}

/// How many times `c` occurs in `s`.
pub open spec fn count_char(s: Seq<char>, c: char) -> nat
    decreases s.len(),
{
    if s.len() == 0 {
        0
    } else {
        (if s[0] == c {
            1nat
        } else {
            0nat
        }) + count_char(s.drop_first(), c)
    }
}

/// The first index of `c` in `s`, or `-1`.
pub open spec fn find_char(s: Seq<char>, c: char) -> int
    decreases s.len(),
{
    if s.len() == 0 {
        -1
    } else if s[0] == c {
        0
    } else {
        let r = find_char(s.drop_first(), c);
        if r == -1 {
            -1
        } else {
            r + 1
        }
    }
}

/// What [`find_char`] means: `-1` exactly when `c` does not occur, else the
/// least index holding `c`.
pub proof fn lemma_find_char_spec(s: Seq<char>, c: char)
    ensures
        find_char(s, c) == -1 ==> forall|j: int| 0 <= j < s.len() ==> s[j] != c,
        find_char(s, c) != -1 ==> 0 <= find_char(s, c) < s.len() && s[find_char(s, c)] == c && (
        forall|j: int| 0 <= j < find_char(s, c) ==> s[j] != c),
    decreases s.len(),
{
    if s.len() > 0 && s[0] != c {
        lemma_find_char_spec(s.drop_first(), c);
        assert(forall|j: int| 1 <= j < s.len() ==> s[j] == s.drop_first()[j - 1]);
    }
}

proof fn lemma_count_char_skip(s: Seq<char>, c: char, i: int)
    requires
        0 <= i < s.len(),
    ensures
        count_char(s.skip(i), c) == (if s[i] == c {
            1nat
        } else {
            0nat
        }) + count_char(s.skip(i + 1), c),
{
    assert(s.skip(i).drop_first() =~= s.skip(i + 1));
    assert(s.skip(i)[0] == s[i]);
}

/// The executable form of [`starts_with`].
pub fn starts_with_ex(v: &Vec<char>, p: &Vec<char>) -> (r: bool)
    ensures
        r == starts_with(v@, p@),
{
    if p.len() > v.len() {
        return false;
    }
    let mut i: usize = 0;
    while i < p.len()
        invariant
            i <= p.len(),
            p.len() <= v.len(),
            forall|j: int| 0 <= j < i ==> v@[j] == p@[j],
        decreases p.len() - i,
    {
        if v[i] != p[i] {
            assert(v@.take(p@.len() as int)[i as int] != p@[i as int]);
            return false;
        }
        i = i + 1;
    }
    assert(v@.take(p@.len() as int) =~= p@);
    true
}

// ---------------------------------------------------------------------------
// Which repository a URL names
// ---------------------------------------------------------------------------

/// The web form of a repository address.
pub open spec fn https_prefix() -> Seq<char> {
    "https://github.com/"@
}

/// The SSH form of a repository address.
pub open spec fn ssh_prefix() -> Seq<char> {
    "git@github.com:"@
}

/// The clone-suffix that an address may carry.
pub open spec fn git_suffix() -> Seq<char> {
    seq!['.', 'g', 'i', 't']
}

/// The address without its clone-suffix, if it carries one.
pub open spec fn strip_git_suffix(s: Seq<char>) -> Seq<char> {
    if ends_with(s, git_suffix()) {
        s.take(s.len() - 4)
    } else {
        s
    }
}

/// A path names a repository when it is exactly owner, one slash, name.
pub open spec fn split_owner_repo(path: Seq<char>) -> Option<(Seq<char>, Seq<char>)> {
    if count_char(path, '/') == 1 {
        let i = find_char(path, '/');
        Some((path.take(i), path.skip(i + 1)))
    } else {
        None
    }
}

/// Which repository an address names: the owner and the repository name,
/// under either address form, with the clone-suffix ignored.
pub open spec fn spec_resolve(s: Seq<char>) -> Option<(Seq<char>, Seq<char>)> {
    if starts_with(s, https_prefix()) {
        split_owner_repo(strip_git_suffix(s.skip(https_prefix().len() as int)))
    } else if starts_with(s, ssh_prefix()) {
        split_owner_repo(strip_git_suffix(s.skip(ssh_prefix().len() as int)))
    } else {
        None
    }
}

fn ends_with_git(v: &Vec<char>) -> (r: bool)
    ensures
        r == ends_with(v@, git_suffix()),
{
    let n = v.len();
    if n >= 4 && v[n - 4] == '.' && v[n - 3] == 'g' && v[n - 2] == 'i' && v[n - 1] == 't' {
        assert(v@.skip(v@.len() - 4) =~= git_suffix());
        true
    } else {
        if n >= 4 {
            assert(v@.skip(v@.len() - 4).len() == 4);
            assert(ends_with(v@, git_suffix()) ==> v@.skip(v@.len() - 4)[0] == '.' && v@.skip(
                v@.len() - 4,
            )[1] == 'g' && v@.skip(v@.len() - 4)[2] == 'i' && v@.skip(v@.len() - 4)[3] == 't');
        }
        false
    }
}

/// Counts the slashes of `v` and remembers the first.
fn scan_slashes(v: &Vec<char>) -> (r: (usize, usize))
    ensures
        r.0 == count_char(v@, '/'),
        count_char(v@, '/') >= 1 ==> r.1 == find_char(v@, '/') && r.1 < v@.len(),
{
    proof {
        assert(v@.skip(0) =~= v@);
    }
    let mut i: usize = 0;
    let mut cnt: usize = 0;
    let mut first: usize = 0;
    while i < v.len()
        invariant
            i <= v.len(),
            cnt <= i,
            count_char(v@, '/') == cnt + count_char(v@.skip(i as int), '/'),
            cnt >= 1 ==> first < i && v@[first as int] == '/' && (forall|j: int|
                0 <= j < first ==> v@[j] != '/'),
            cnt == 0 ==> forall|j: int| 0 <= j < i ==> v@[j] != '/',
        decreases v.len() - i,
    {
        proof {
            lemma_count_char_skip(v@, '/', i as int);
        }
        if v[i] == '/' {
            if cnt == 0 {
                first = i;
            }
            cnt = cnt + 1;
        }
        i = i + 1;
    }
    proof {
        assert(v@.skip(v@.len() as int) =~= Seq::<char>::empty());
        if cnt >= 1 {
            lemma_find_char_spec(v@, '/');
            assert(find_char(v@, '/') != -1);
            let f = find_char(v@, '/');
            assert(v@[f] == '/');
            assert(f == first as int);
        }
    }
    (cnt, first)
}

/// Names the repository an address points at; the executable form of
/// [`spec_resolve`].
pub fn resolve(repo_url: &str) -> (r: Option<(String, String)>)
    ensures
        match r {
            Some(p) => spec_resolve(repo_url@) == Some((p.0@, p.1@)),
            None => spec_resolve(repo_url@) is None,
        },
{
    let cs = str_to_chars(repo_url);
    let hp = str_to_chars("https://github.com/");
    let sp = str_to_chars("git@github.com:");
    let path: Vec<char>;
    if starts_with_ex(&cs, &hp) {
        path = sub_chars(&cs, hp.len(), cs.len());
        proof {
            assert(path@ =~= cs@.skip(https_prefix().len() as int));
        }
    } else if starts_with_ex(&cs, &sp) {
        path = sub_chars(&cs, sp.len(), cs.len());
        proof {
            assert(path@ =~= cs@.skip(ssh_prefix().len() as int));
        }
    } else {
        return None;
    }
    let stripped: Vec<char>;
    if ends_with_git(&path) {
        stripped = sub_chars(&path, 0, path.len() - 4);
        proof {
            assert(stripped@ =~= strip_git_suffix(path@));
        }
    } else {
        stripped = path;
    }
    let (cnt, first) = scan_slashes(&stripped);
    if cnt == 1 {
        let owner = sub_chars(&stripped, 0, first);
        let name = sub_chars(&stripped, first + 1, stripped.len());
        proof {
            assert(owner@ =~= stripped@.take(find_char(stripped@, '/')));
            assert(name@ =~= stripped@.skip(find_char(stripped@, '/') + 1));
        }
        Some((chars_to_string(&owner), chars_to_string(&name)))
    } else {
        None
    }
}

// ---------------------------------------------------------------------------
// Whether a clone gains an upstream remote
// ---------------------------------------------------------------------------

/// A letter's lower-case code, other characters unchanged.
pub open spec fn ascii_lower(c: char) -> int {
    let u = c as u32;
    if 65 <= u && u <= 90 {
        u + 32
    } else {
        u as int
    }
}

/// Whether two texts agree up to letter case.
pub open spec fn eq_ignore_ascii_case(a: Seq<char>, b: Seq<char>) -> bool {
    a.len() == b.len() && (forall|i: int|
        0 <= i < a.len() ==> #[trigger] ascii_lower(a[i]) == ascii_lower(b[i]))
}

/// A freshly cloned repository gains its parent as upstream remote exactly
/// when it is a fork and its owner is the signed-in account, compared
/// without regard to letter case.
pub fn should_add_upstream(owner: &str, fork: bool, github_username: &str) -> (r: bool)
    ensures
        r == (fork && eq_ignore_ascii_case(owner@, github_username@)),
{
    if !fork {
        return false;
    }
    let a = str_to_chars(owner);
    let b = str_to_chars(github_username);
    if a.len() != b.len() {
        return false;
    }
    let mut i: usize = 0;
    while i < a.len()
        invariant
            i <= a.len(),
            a.len() == b.len(),
            a@ == owner@,
            b@ == github_username@,
            forall|j: int| 0 <= j < i ==> #[trigger] ascii_lower(a@[j]) == ascii_lower(b@[j]),
        decreases a.len() - i,
    {
        let ca = a[i] as u32;
        let cb = b[i] as u32;
        let la = if 65 <= ca && ca <= 90 {
            ca + 32
        } else {
            ca
        };
        let lb = if 65 <= cb && cb <= 90 {
            cb + 32
        } else {
            cb
        };
        if la != lb {
            proof {
                assert(ascii_lower(a@[i as int]) != ascii_lower(b@[i as int]));
                assert(!eq_ignore_ascii_case(owner@, github_username@));
            }
            return false;
        }
        i = i + 1;
    }
    true
}

} // verus!

verus! {

// ---------------------------------------------------------------------------
// The connection-trace body
// ---------------------------------------------------------------------------

/// What the trace endpoint's body yields: the address and the location, if
/// their lines occur; of repeated lines the last one counts.
#[verifier::ext_equal]
pub struct TraceInfoV {
    pub ip: Option<Seq<char>>,
    pub loc: Option<Seq<char>>,
}

/// The executable form of [`TraceInfoV`].
#[derive(Debug)]
pub struct TraceInfo {
    pub ip: Option<String>,
    pub loc: Option<String>,
}

impl View for TraceInfo {
    type V = TraceInfoV;

    open spec fn view(&self) -> TraceInfoV {
        TraceInfoV {
            ip: match self.ip {
                Some(ref s) => Some(s@),
                None => None,
            },
            loc: match self.loc {
                Some(ref s) => Some(s@),
                None => None,
            },
        }
    }
}

/// A line without one trailing carriage return.
pub open spec fn strip_cr(l: Seq<char>) -> Seq<char> {
    if l.len() > 0 && l.last() == '\r' {
        l.drop_last()
    } else {
        l
    }
}

/// The body's lines: split at each newline, each line without a trailing
/// carriage return, with no empty line after a final newline.
pub open spec fn split_lines(s: Seq<char>) -> Seq<Seq<char>>
    decreases s.len(),
{
    if s.len() == 0 {
        Seq::empty()
    } else {
        let i = find_char(s, '\n');
        if 0 <= i < s.len() {
            seq![strip_cr(s.take(i))] + split_lines(s.skip(i + 1))
        } else {
            seq![strip_cr(s)]
        }
    }
}

/// The marker of the address line.
pub open spec fn ip_prefix() -> Seq<char> {
    seq!['i', 'p', '=']
}

/// The marker of the location line.
pub open spec fn loc_prefix() -> Seq<char> {
    seq!['l', 'o', 'c', '=']
}

/// What one line does to the result.
pub open spec fn trace_step(t: TraceInfoV, l: Seq<char>) -> TraceInfoV {
    if starts_with(l, ip_prefix()) {
        TraceInfoV { ip: Some(l.skip(3)), ..t }
    } else if starts_with(l, loc_prefix()) {
        TraceInfoV { loc: Some(l.skip(4)), ..t }
    } else {
        t
    }
}

/// The lines applied in order, from the given starting result.
pub open spec fn trace_fold(t: TraceInfoV, ls: Seq<Seq<char>>) -> TraceInfoV
    decreases ls.len(),
{
    if ls.len() == 0 {
        t
    } else {
        trace_fold(trace_step(t, ls[0]), ls.drop_first())
    }
}

/// The result before any line.
pub open spec fn trace_empty() -> TraceInfoV {
    TraceInfoV { ip: None, loc: None }
}

/// What a whole trace body means.
pub open spec fn spec_parse_trace(s: Seq<char>) -> TraceInfoV {
    trace_fold(trace_empty(), split_lines(s))
}

/// Reads a trace body; the executable form of [`spec_parse_trace`].
pub fn parse_trace(body: &str) -> (r: TraceInfo)
    ensures
        r@ == spec_parse_trace(body@),
{
    let cs = str_to_chars(body);
    let ipp: Vec<char> = vec!['i', 'p', '='];
    let locp: Vec<char> = vec!['l', 'o', 'c', '='];
    proof {
        assert(ipp@ =~= ip_prefix());
        assert(locp@ =~= loc_prefix());
        assert(cs@.skip(0) =~= cs@);
    }
    let mut ip: Option<String> = None;
    let mut loc: Option<String> = None;
    let mut pos: usize = 0;
    while pos < cs.len()
        invariant
            pos <= cs.len(),
            cs@ == body@,
            ipp@ == ip_prefix(),
            locp@ == loc_prefix(),
            spec_parse_trace(body@) == trace_fold(
                TraceInfoV {
                    ip: match ip {
                        Some(ref s) => Some(s@),
                        None => None,
                    },
                    loc: match loc {
                        Some(ref s) => Some(s@),
                        None => None,
                    },
                },
                split_lines(cs@.skip(pos as int)),
            ),
        decreases cs.len() - pos,
    {
        let ghost acc0 = TraceInfoV {
            ip: match ip {
                Some(ref s) => Some(s@),
                None => None,
            },
            loc: match loc {
                Some(ref s) => Some(s@),
                None => None,
            },
        };
        // find the next newline
        let mut j: usize = pos;
        while j < cs.len() && cs[j] != '\n'
            invariant
                pos <= j <= cs.len(),
                forall|k: int| pos <= k < j ==> cs@[k] != '\n',
            decreases cs.len() - j,
        {
            j = j + 1;
        }
        let ghost rest = cs@.skip(pos as int);
        proof {
            lemma_find_char_spec(rest, '\n');
            assert(forall|k: int| 0 <= k < (j - pos) ==> rest[k] != '\n');
            if j < cs.len() {
                assert(rest[j - pos as int] == '\n');
                assert(find_char(rest, '\n') == j - pos as int);
            } else {
                assert(find_char(rest, '\n') == -1);
            }
        }
        // the raw line, then without a trailing carriage return
        let mut line_end = j;
        if line_end > pos && cs[line_end - 1] == '\r' {
            line_end = line_end - 1;
        }
        let line = sub_chars(&cs, pos, line_end);
        let ghost rawline = if j < cs.len() {
            rest.take(j - pos as int)
        } else {
            rest
        };
        proof {
            assert(rawline =~= cs@.subrange(pos as int, j as int));
            if line_end < j {
                assert(rawline.last() == '\r');
                assert(line@ =~= rawline.drop_last());
            } else {
                if rawline.len() > 0 {
                    assert(rawline.last() == cs@[j - 1]);
                }
                assert(line@ =~= rawline);
            }
            assert(line@ == strip_cr(rawline));
        }
        // apply the line
        if starts_with_ex(&line, &ipp) {
            let v = sub_chars(&line, 3, line.len());
            proof {
                assert(v@ =~= line@.skip(3));
            }
            ip = Some(chars_to_string(&v));
        } else if starts_with_ex(&line, &locp) {
            let v = sub_chars(&line, 4, line.len());
            proof {
                assert(v@ =~= line@.skip(4));
            }
            loc = Some(chars_to_string(&v));
        }
        let next = if j < cs.len() {
            j + 1
        } else {
            cs.len()
        };
        proof {
            let acc1 = TraceInfoV {
                ip: match ip {
                    Some(ref s) => Some(s@),
                    None => None,
                },
                loc: match loc {
                    Some(ref s) => Some(s@),
                    None => None,
                },
            };
            assert(acc1 == trace_step(acc0, line@));
            let ls = split_lines(rest);
            if j < cs.len() {
                assert(rest.skip((j - pos as int) + 1) =~= cs@.skip(next as int));
                assert(ls == seq![line@] + split_lines(cs@.skip(next as int)));
            } else {
                assert(ls == seq![line@]);
                assert(cs@.skip(next as int).len() == 0);
                assert(split_lines(cs@.skip(next as int)) =~= Seq::<Seq<char>>::empty());
                assert(ls =~= seq![line@] + split_lines(cs@.skip(next as int)));
            }
            let ls2 = split_lines(cs@.skip(next as int));
            assert((seq![line@] + ls2)[0] == line@);
            assert((seq![line@] + ls2).drop_first() =~= ls2);
            assert(trace_fold(acc0, ls) == trace_fold(trace_step(acc0, line@), ls2));
        }
        pos = next;
    }
    proof {
        assert(cs@.skip(cs@.len() as int) =~= Seq::<char>::empty());
    }
    TraceInfo { ip, loc }
}

} // verus!
