//! Decisions behind the commit-message suggestion command.
//!
//! The command asks a completion service for a few rewrites of a draft
//! commit message, lets the operator pick one or ask again with more
//! context, and gives up after a fixed number of rounds.  The requests, the
//! terminal prompts and the worker threads live with the caller; this module
//! holds the prompts' contents, the merging of the fetched suggestions, the
//! choice list, and the rules of the regenerate loop.

use vstd::prelude::*;

use vstd::string::StringSliceAdditionalSpecFns;
use vstd::utf8::encode_utf8;

use crate::json::{chars_eq, str_to_chars};

verus! {

/// How many suggestions are fetched per round.
pub const NUM_SUGGESTIONS: usize = 3;

/// How many rounds the operator may ask for before the command gives up.
pub const MAX_REGENERATIONS: usize = 3;

/// The longest draft message, in bytes, that may be sent.
pub const MAX_CONTEXT_LEN: usize = 500;

// ---------------------------------------------------------------------------
// Prompt messages
// ---------------------------------------------------------------------------

/// One chat message of a completion request.
#[derive(Debug)]
pub struct Message {
    pub role: String,
    pub content: String,
}

/// The view of a [`Message`].
#[verifier::ext_equal]
pub struct MessageV {
    pub role: Seq<char>,
    pub content: Seq<char>,
}

impl View for Message {
    type V = MessageV;

    open spec fn view(&self) -> MessageV {
        MessageV { role: self.role@, content: self.content@ }
    }
}

/// The fixed instruction under which every draft is rewritten.
pub open spec fn system_prompt() -> Seq<char> {
    "You rewrite git commit messages to be professional and follow Conventional Commits. Its ok if you skip scope but try to figure out. Output only the commit message. No explanations."@
}

/// The instruction message of a completion request.
pub fn get_system_prompt_message() -> (r: Message)
    ensures
        r@.role == "system"@,
        r@.content == system_prompt(),
{
    Message {
        role: String::from_str("system"),
        content: String::from_str(
            "You rewrite git commit messages to be professional and follow Conventional Commits. Its ok if you skip scope but try to figure out. Output only the commit message. No explanations.",
        ),
    }
}

/// The draft, wrapped as the operator's message of a completion request.
pub fn get_user_prompt_message(message: &str) -> (r: Message)
    ensures
        r@.role == "user"@,
        r@.content == message@,
{
    Message { role: String::from_str("user"), content: message.to_owned() }
}

// ---------------------------------------------------------------------------
// Merging fetched suggestions
// ---------------------------------------------------------------------------

/// The texts of a string vector.
pub open spec fn strings_view(s: Seq<String>) -> Seq<Seq<char>> {
    s.map_values(|x: String| x@)
}

/// The texts of the fetch results, a failed fetch being `None`.
pub open spec fn opts_view(s: Seq<Option<String>>) -> Seq<Option<Seq<char>>> {
    s.map_values(
        |x: Option<String>|
            match x {
                Some(t) => Some(t@),
                None => None,
            },
    )
}

/// The fetched suggestions in arrival order, failures dropped and an exact
/// repeat of an earlier suggestion dropped too.
pub open spec fn spec_merge(rs: Seq<Option<Seq<char>>>) -> Seq<Seq<char>>
    decreases rs.len(),
{
    if rs.len() == 0 {
        Seq::empty()
    } else {
        let prev = spec_merge(rs.drop_last());
        match rs.last() {
            Option::None => prev,
            Option::Some(m) => if prev.contains(m) {
                prev
            } else {
                prev.push(m)
            },
        }
    }
}

/// Whether one of the strings holds this text.
fn contains_string(v: &Vec<String>, s: &String) -> (r: bool)
    ensures
        r == strings_view(v@).contains(s@),
{
    let mut i: usize = 0;
    while i < v.len()
        invariant
            i <= v.len(),
            forall|j: int| 0 <= j < i ==> strings_view(v@)[j] != s@,
        decreases v.len() - i,
    {
        let a = str_to_chars(v[i].as_str());
        let b = str_to_chars(s.as_str());
        if chars_eq(&a, &b) {
            assert(strings_view(v@)[i as int] == s@);
            return true;
        }
        i = i + 1;
    }
    assert(!strings_view(v@).contains(s@));
    false
}

/// Merges one round of fetch results; the executable form of
/// [`spec_merge`].
pub fn merge_suggestions(results: &Vec<Option<String>>) -> (r: Vec<String>)
    ensures
        strings_view(r@) == spec_merge(opts_view(results@)),
{
    let mut out: Vec<String> = Vec::new();
    proof {
        assert(opts_view(results@.take(0)) =~= Seq::<Option<Seq<char>>>::empty());
        assert(strings_view(out@) =~= Seq::<Seq<char>>::empty());
    }
    let mut i: usize = 0;
    while i < results.len()
        invariant
            i <= results.len(),
            strings_view(out@) == spec_merge(opts_view(results@.take(i as int))),
        decreases results.len() - i,
    {
        proof {
            assert(opts_view(results@.take(i as int + 1)).drop_last() =~= opts_view(
                results@.take(i as int),
            ));
            assert(opts_view(results@.take(i as int + 1)).last() == (match results@[i as int] {
                Some(t) => Some(t@),
                None => None::<Seq<char>>,
            }));
        }
        match &results[i] {
            None => {},
            Some(s) => {
                if !contains_string(&out, s) {
                    let ghost prev = strings_view(out@);
                    out.push(s.clone());
                    proof {
                        assert(strings_view(out@) =~= prev.push(s@));
                    }
                }
            },
        }
        i = i + 1;
    }
    proof {
        assert(results@.take(results@.len() as int) =~= results@);
    }
    out
}

// ---------------------------------------------------------------------------
// The choice list and the regenerate loop
// ---------------------------------------------------------------------------

/// The extra choice that asks for another round.
pub open spec fn regen_label() -> Seq<char> {
    "\u{21bb} Regenerate with more context..."@
}

/// The extra choice's text.
pub fn regenerate_option() -> (r: String)
    ensures
        r@ == regen_label(),
{
    String::from_str("\u{21bb} Regenerate with more context...")
}

/// The list the operator picks from: the suggestions, then the extra choice.
pub fn build_options(suggestions: &Vec<String>) -> (r: Vec<String>)
    ensures
        strings_view(r@) == strings_view(suggestions@).push(regen_label()),
{
    let mut out: Vec<String> = Vec::new();
    let mut i: usize = 0;
    while i < suggestions.len()
        invariant
            i <= suggestions.len(),
            strings_view(out@) == strings_view(suggestions@).take(i as int),
        decreases suggestions.len() - i,
    {
        let ghost prevv = strings_view(out@);
        let s = suggestions[i].clone();
        proof {
            assert(s@ == suggestions@[i as int]@);
        }
        out.push(s);
        proof {
            assert(strings_view(out@) =~= prevv.push(suggestions@[i as int]@));
            assert(strings_view(suggestions@).take(i as int + 1) =~= strings_view(
                suggestions@,
            ).take(i as int).push(suggestions@[i as int]@));
        }
        i = i + 1;
    }
    let ghost prevv = strings_view(out@);
    proof {
        assert(strings_view(suggestions@).take(suggestions@.len() as int) =~= strings_view(
            suggestions@,
        ));
    }
    out.push(regenerate_option());
    proof {
        assert(strings_view(out@) =~= prevv.push(regen_label()));
    }
    out
}

/// Whether the operator picked the extra choice rather than a suggestion.
pub fn is_regenerate_option(selected: &str) -> (r: bool)
    ensures
        r == (selected@ == regen_label()),
{
    let a = str_to_chars(selected);
    let b = str_to_chars("\u{21bb} Regenerate with more context...");
    chars_eq(&a, &b)
}

/// Whether another round may still be asked for.
pub fn regeneration_exhausted(count: usize) -> (r: bool)
    ensures
        r == (count >= MAX_REGENERATIONS),
{
    count >= MAX_REGENERATIONS
}

/// What becomes of the draft when the operator adds context: nothing on
/// empty context, nothing when the joined draft would run over
/// [`MAX_CONTEXT_LEN`] bytes, else the draft with the context appended after
/// a comma.
pub open spec fn spec_append_context(current: Seq<char>, extra: Seq<char>) -> Option<Seq<char>> {
    if extra.len() == 0 {
        None
    } else {
        let joined = current + ", "@ + extra;
        if encode_utf8(joined).len() > MAX_CONTEXT_LEN {
            None
        } else {
            Some(joined)
        }
    }
}

/// Joins added context onto the draft; the executable form of
/// [`spec_append_context`].
pub fn append_context(current: &str, extra: &str) -> (r: Option<String>)
    ensures
        match r {
            Some(s) => spec_append_context(current@, extra@) == Some(s@),
            None => spec_append_context(current@, extra@) is None,
        },
{
    if extra.is_empty() {
        return None;
    }
    let joined = current.to_owned().concat(", ").concat(extra);
    proof {
        assert(joined@ == current@ + ", "@ + extra@);
    }
    let js = joined.as_str();
    let bs = js.as_bytes();
    let n = bs.len();
    proof {
        broadcast use vstd::slice::group_slice_axioms;

        assert(bs@ == js.spec_bytes());
        assert(js.spec_bytes() == encode_utf8(js@));
        assert(n == encode_utf8(joined@).len());
    }
    if n > MAX_CONTEXT_LEN {
        None
    } else {
        Some(joined)
    }
}

} // verus!

verus! {

// ---------------------------------------------------------------------------
// Reading the completion service's answer
// ---------------------------------------------------------------------------

/// The name of the choice-list member of a completion response.
pub open spec fn key_choices() -> Seq<char> {
    seq!['c', 'h', 'o', 'i', 'c', 'e', 's']
}

/// The name of a choice's message member.
pub open spec fn key_message() -> Seq<char> {
    seq!['m', 'e', 's', 's', 'a', 'g', 'e']
}

/// The name of a message's text member.
pub open spec fn key_content() -> Seq<char> {
    seq!['c', 'o', 'n', 't', 'e', 'n', 't']
}

/// The text without leading whitespace.
pub open spec fn trim_front(s: Seq<char>) -> Seq<char>
    decreases s.len(),
{
    if s.len() > 0 && crate::json::is_ws(s[0]) {
        trim_front(s.drop_first())
    } else {
        s
    }
}

/// The text without trailing whitespace.
pub open spec fn trim_back(s: Seq<char>) -> Seq<char>
    decreases s.len(),
{
    if s.len() > 0 && crate::json::is_ws(s.last()) {
        trim_back(s.drop_last())
    } else {
        s
    }
}

/// The text without surrounding whitespace.
pub open spec fn trim_ws(s: Seq<char>) -> Seq<char> {
    trim_back(trim_front(s))
}

/// Removes surrounding whitespace; the executable form of [`trim_ws`].
fn trim_chars(v: &Vec<char>) -> (r: Vec<char>)
    ensures
        r@ == trim_ws(v@),
{
    proof {
        assert(v@.skip(0) =~= v@);
    }
    let mut a: usize = 0;
    while a < v.len() && is_ws_loose(v[a])
        invariant
            a <= v.len(),
            trim_front(v@) == trim_front(v@.skip(a as int)),
        decreases v.len() - a,
    {
        proof {
            assert(v@.skip(a as int).drop_first() =~= v@.skip(a as int + 1));
            assert(v@.skip(a as int)[0] == v@[a as int]);
        }
        a = a + 1;
    }
    proof {
        if a < v.len() {
            assert(trim_front(v@.skip(a as int)) == v@.skip(a as int));
        } else {
            assert(v@.skip(a as int) =~= Seq::<char>::empty());
        }
    }
    let mut b: usize = v.len();
    proof {
        assert(v@.subrange(a as int, b as int) =~= v@.skip(a as int));
    }
    while b > a && is_ws_loose(v[b - 1])
        invariant
            a <= b <= v.len(),
            trim_back(v@.skip(a as int)) == trim_back(v@.subrange(a as int, b as int)),
        decreases b,
    {
        proof {
            assert(v@.subrange(a as int, b as int).drop_last() =~= v@.subrange(
                a as int,
                b as int - 1,
            ));
            assert(v@.subrange(a as int, b as int).last() == v@[b as int - 1]);
        }
        b = b - 1;
    }
    proof {
        if b > a {
            assert(trim_back(v@.subrange(a as int, b as int)) == v@.subrange(a as int, b as int));
        } else {
            assert(v@.subrange(a as int, b as int) =~= Seq::<char>::empty());
        }
    }
    crate::json::sub_chars(v, a, b)
}

/// The executable form of the whitespace test used when trimming.
fn is_ws_loose(c: char) -> (r: bool)
    ensures
        r == crate::json::is_ws(c),
{
    c == ' ' || c == '\t' || c == '\n' || c == '\r'
}

/// What the message object of a choice yields: its text member, trimmed.
pub open spec fn spec_parse_choice_message(s: Seq<char>) -> Option<Seq<char>> {
    match crate::json::scan_json(s) {
        Option::None => None,
        Option::Some(fs) => match crate::json::string_member(fs, key_content()) {
            Some(Some(c)) => Some(trim_ws(c)),
            _ => None,
        },
    }
}

/// What one choice object yields: its message member's text.
pub open spec fn spec_parse_choice(s: Seq<char>) -> Option<Seq<char>> {
    match crate::json::scan_json(s) {
        Option::None => None,
        Option::Some(fs) => if crate::json::field_count(fs, key_message()) >= 2 {
            None
        } else {
            match crate::json::find_field(fs, key_message()) {
                Option::Some(crate::json::JsonValueV::Obj(raw)) => spec_parse_choice_message(raw),
                _ => None,
            }
        },
    }
}

/// What a whole completion response yields: the first choice's text,
/// surrounding whitespace removed.
pub open spec fn spec_parse_chat_content(s: Seq<char>) -> Option<Seq<char>> {
    match crate::json::scan_json(s) {
        Option::None => None,
        Option::Some(fs) => if crate::json::field_count(fs, key_choices()) >= 2 {
            None
        } else {
            match crate::json::find_field(fs, key_choices()) {
                Option::Some(crate::json::JsonValueV::Arr(raw)) => match crate::json::first_object_of_array(
                    raw,
                ) {
                    Some(objraw) => spec_parse_choice(objraw),
                    None => None,
                },
                _ => None,
            }
        },
    }
}

/// Reads a completion response body; the executable form of
/// [`spec_parse_chat_content`].
pub fn parse_chat_content(body: &str) -> (r: Option<String>)
    ensures
        match r {
            Some(c) => spec_parse_chat_content(body@) == Some(c@),
            None => spec_parse_chat_content(body@) is None,
        },
{
    let cs = str_to_chars(body);
    let fields = match crate::json::scan_object(&cs) {
        None => {
            return None;
        },
        Some(f) => f,
    };
    let kc: Vec<char> = vec!['c', 'h', 'o', 'i', 'c', 'e', 's'];
    proof {
        assert(kc@ =~= key_choices());
    }
    let raw = match crate::json::find_unique(&fields, &kc) {
        Ok(Some(i)) => match &fields[i].value {
            crate::json::JsonValue::Arr(raw) => raw,
            _ => {
                return None;
            },
        },
        _ => {
            return None;
        },
    };
    let objraw = match crate::json::scan_first_object(raw) {
        Some(o) => o,
        None => {
            return None;
        },
    };
    let choice_fields = match crate::json::scan_object(&objraw) {
        None => {
            return None;
        },
        Some(f) => f,
    };
    let km: Vec<char> = vec!['m', 'e', 's', 's', 'a', 'g', 'e'];
    proof {
        assert(km@ =~= key_message());
    }
    let msgraw = match crate::json::find_unique(&choice_fields, &km) {
        Ok(Some(i)) => match &choice_fields[i].value {
            crate::json::JsonValue::Obj(raw2) => raw2,
            _ => {
                return None;
            },
        },
        _ => {
            return None;
        },
    };
    let msg_fields = match crate::json::scan_object(msgraw) {
        None => {
            return None;
        },
        Some(f) => f,
    };
    let kt: Vec<char> = vec!['c', 'o', 'n', 't', 'e', 'n', 't'];
    proof {
        assert(kt@ =~= key_content());
    }
    match crate::json::get_string_member(&msg_fields, &kt) {
        Ok(Some(content)) => {
            let cc = str_to_chars(content.as_str());
            let trimmed = trim_chars(&cc);
            Some(crate::json::chars_to_string(&trimmed))
        },
        _ => None,
    }
}

} // verus!
