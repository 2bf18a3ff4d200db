//! The credential store's record.
//!
//! The store keeps one flat JSON object with three optional string members:
//! the bearer token, the resolved account name, and an unrelated secondary
//! key.  A member absent from the stored text reads back as the empty string,
//! so older or foreign records never fail a load; an unknown member is
//! ignored.  Saving is a read-modify-write: the existing record (or the empty
//! one, when the file is absent or unreadable) is updated and written back
//! whole, in the one canonical shape [`spec_encode_config`] describes.

use vstd::prelude::*;

use crate::json::{
    chars_to_string, escape, escape_push, field_count, fields_view, find_field, get_string_member,
    init_scan, lemma_fold_concat, lemma_fold_frame, lemma_scan_string_body, member_or_empty,
    push_chars, scan_fold, scan_json, scan_object, scan_step, str_to_chars, string_member, FieldV,
    JsonField, JsonValueV, Mode, ScanV,
};

verus! {

// ---------------------------------------------------------------------------
// The record
// ---------------------------------------------------------------------------

/// What a stored record holds, as plain text values.
#[verifier::ext_equal]
pub struct ConfigV {
    pub github_token: Seq<char>,
    pub github_username: Seq<char>,
    pub openai_api_key: Seq<char>,
}

/// The persisted record: a bearer token, the account name it belongs to, and
/// a secondary key for the suggestion service.  Empty means absent.
pub struct Config {
    pub github_token: String,
    pub github_username: String,
    pub openai_api_key: String,
}

impl View for Config {
    type V = ConfigV;

    open spec fn view(&self) -> ConfigV {
        ConfigV {
            github_token: self.github_token@,
            github_username: self.github_username@,
            openai_api_key: self.openai_api_key@,
        }
    }
}

/// The record with every member empty.
pub open spec fn empty_config() -> ConfigV {
    ConfigV {
        github_token: Seq::empty(),
        github_username: Seq::empty(),
        openai_api_key: Seq::empty(),
    }
}

impl Default for Config {
    fn default() -> (r: Config)
        ensures
            r@ == empty_config(),
    {
        Config { github_token: String::new(), github_username: String::new(), openai_api_key: String::new() }
    }
}

/// Why a load can fail: the file does not exist, or its text is not a record.
#[derive(Clone, Copy, PartialEq, Eq, Structural, Debug)]
pub enum ConfigError {
    Missing,
    Corrupt,
}

// ---------------------------------------------------------------------------
// Member names
// ---------------------------------------------------------------------------

/// The name of the token member.
pub open spec fn key_token() -> Seq<char> {
    seq!['g', 'i', 't', 'h', 'u', 'b', '_', 't', 'o', 'k', 'e', 'n']
}

/// The name of the account-name member.
pub open spec fn key_username() -> Seq<char> {
    seq!['g', 'i', 't', 'h', 'u', 'b', '_', 'u', 's', 'e', 'r', 'n', 'a', 'm', 'e']
}

/// The name of the secondary-key member.
pub open spec fn key_api_key() -> Seq<char> {
    seq!['o', 'p', 'e', 'n', 'a', 'i', '_', 'a', 'p', 'i', '_', 'k', 'e', 'y']
}

fn key_token_chars() -> (r: Vec<char>)
    ensures
        r@ == key_token(),
{
    let r: Vec<char> = vec!['g', 'i', 't', 'h', 'u', 'b', '_', 't', 'o', 'k', 'e', 'n'];
    proof {
        assert(r@ =~= key_token());
    }
    r
}

fn key_username_chars() -> (r: Vec<char>)
    ensures
        r@ == key_username(),
{
    let r: Vec<char> = vec!['g', 'i', 't', 'h', 'u', 'b', '_', 'u', 's', 'e', 'r', 'n', 'a', 'm', 'e'];
    proof {
        assert(r@ =~= key_username());
    }
    r
}

fn key_api_key_chars() -> (r: Vec<char>)
    ensures
        r@ == key_api_key(),
{
    let r: Vec<char> = vec!['o', 'p', 'e', 'n', 'a', 'i', '_', 'a', 'p', 'i', '_', 'k', 'e', 'y'];
    proof {
        assert(r@ =~= key_api_key());
    }
    r
}

// ---------------------------------------------------------------------------
// The canonical written shape
// ---------------------------------------------------------------------------

/// `{"` then the token member's name, then `":"`.
pub open spec fn seg_open() -> Seq<char> {
    seq!['{', '"'] + key_token() + seq!['"', ':', '"']
}

/// Closes the token member and opens the account-name member.
pub open spec fn seg_username() -> Seq<char> {
    seq!['"', ',', '"'] + key_username() + seq!['"', ':', '"']
}

/// Closes the account-name member and opens the secondary-key member.
pub open spec fn seg_api_key() -> Seq<char> {
    seq!['"', ',', '"'] + key_api_key() + seq!['"', ':', '"']
}

/// Closes the last member and the object.
pub open spec fn seg_close() -> Seq<char> {
    seq!['"', '}']
}

/// The one shape in which a record is written: all three members, in a fixed
/// order, with string members escaped as [`escape`] says.
pub open spec fn spec_encode_config(c: ConfigV) -> Seq<char> {
    seg_open() + escape(c.github_token) + seg_username() + escape(c.github_username)
        + seg_api_key() + escape(c.openai_api_key) + seg_close()
}

/// A record as it was written before the secondary-key member existed: only
/// the token and account-name members.
pub open spec fn spec_encode_pair(t: Seq<char>, u: Seq<char>) -> Seq<char> {
    seg_open() + escape(t) + seg_username() + escape(u) + seg_close()
}

/// Writes a record in the canonical shape.
pub fn encode_config(c: &Config) -> (r: String)
    ensures
        r@ == spec_encode_config(c@),
{
    let mut out: Vec<char> = Vec::new();
    out.push('{');
    out.push('"');
    let kt = key_token_chars();
    push_chars(&mut out, &kt);
    out.push('"');
    out.push(':');
    out.push('"');
    assert(out@ =~= seg_open());
    let t = str_to_chars(c.github_token.as_str());
    escape_push(&mut out, &t);
    out.push('"');
    out.push(',');
    out.push('"');
    let ku = key_username_chars();
    push_chars(&mut out, &ku);
    out.push('"');
    out.push(':');
    out.push('"');
    assert(out@ =~= seg_open() + escape(c@.github_token) + seg_username());
    let u = str_to_chars(c.github_username.as_str());
    escape_push(&mut out, &u);
    out.push('"');
    out.push(',');
    out.push('"');
    let kk = key_api_key_chars();
    push_chars(&mut out, &kk);
    out.push('"');
    out.push(':');
    out.push('"');
    assert(out@ =~= seg_open() + escape(c@.github_token) + seg_username() + escape(
        c@.github_username,
    ) + seg_api_key());
    let k = str_to_chars(c.openai_api_key.as_str());
    escape_push(&mut out, &k);
    out.push('"');
    out.push('}');
    assert(out@ =~= spec_encode_config(c@));
    chars_to_string(&out)
}

// ---------------------------------------------------------------------------
// Reading a record
// ---------------------------------------------------------------------------

/// What a stored text means as a record: the scanned object's three known
/// members, each an optional string, every other member ignored.
pub open spec fn spec_parse_config(s: Seq<char>) -> Option<ConfigV> {
    match scan_json(s) {
        Option::None => None,
        Option::Some(fs) => match (
            string_member(fs, key_token()),
            string_member(fs, key_username()),
            string_member(fs, key_api_key()),
        ) {
            (Some(t), Some(u), Some(k)) => Some(
                ConfigV {
                    github_token: member_or_empty(t),
                    github_username: member_or_empty(u),
                    openai_api_key: member_or_empty(k),
                },
            ),
            _ => None,
        },
    }
}

/// Reads a stored text as a record; the executable form of
/// [`spec_parse_config`].
pub fn parse_config(s: &str) -> (r: Option<Config>)
    ensures
        match r {
            Some(c) => spec_parse_config(s@) == Some(c@),
            None => spec_parse_config(s@) is None,
        },
{
    let cs = str_to_chars(s);
    match scan_object(&cs) {
        None => None,
        Some(fields) => {
            let kt = key_token_chars();
            let ku = key_username_chars();
            let kk = key_api_key_chars();
            let t = match get_string_member(&fields, &kt) {
                Err(()) => {
                    return None;
                },
                Ok(o) => o,
            };
            let u = match get_string_member(&fields, &ku) {
                Err(()) => {
                    return None;
                },
                Ok(o) => o,
            };
            let k = match get_string_member(&fields, &kk) {
                Err(()) => {
                    return None;
                },
                Ok(o) => o,
            };
            Some(
                Config {
                    github_token: unwrap_or_empty(t),
                    github_username: unwrap_or_empty(u),
                    openai_api_key: unwrap_or_empty(k),
                },
            )
        },
    }
}

/// The executable form of [`member_or_empty`].
fn unwrap_or_empty(o: Option<String>) -> (r: String)
    ensures
        r@ == member_or_empty(match o {
            Some(ref s) => Some(s@),
            None => None,
        }),
{
    match o {
        Some(s) => s,
        None => String::new(),
    }
}

// ---------------------------------------------------------------------------
// The store's operations on file contents
// ---------------------------------------------------------------------------

/// The stored text, viewed: `None` when no file exists.
pub open spec fn contents_view(contents: Option<&str>) -> Option<Seq<char>> {
    match contents {
        Some(s) => Some(s@),
        None => None,
    }
}

/// What a load of the whole record yields for given file contents.
pub open spec fn spec_load(contents: Option<Seq<char>>) -> Result<ConfigV, ConfigError> {
    match contents {
        Option::None => Err(ConfigError::Missing),
        Option::Some(s) => match spec_parse_config(s) {
            Some(c) => Ok(c),
            None => Err(ConfigError::Corrupt),
        },
    }
}

/// Loads the whole record from the file's contents, `None` standing for an
/// absent file.
pub fn load_config(contents: Option<&str>) -> (r: Result<Config, ConfigError>)
    ensures
        match (r, spec_load(contents_view(contents))) {
            (Ok(c), Ok(cv)) => c@ == cv,
            (Err(e), Err(ev)) => e == ev,
            _ => false,
        },
{
    match contents {
        None => Err(ConfigError::Missing),
        Some(s) => match parse_config(s) {
            Some(c) => Ok(c),
            None => Err(ConfigError::Corrupt),
        },
    }
}

/// Loads the bearer token from the file's contents.
pub fn load_token(contents: Option<&str>) -> (r: Result<String, ConfigError>)
    ensures
        match (r, spec_load(contents_view(contents))) {
            (Ok(t), Ok(cv)) => t@ == cv.github_token,
            (Err(e), Err(ev)) => e == ev,
            _ => false,
        },
{
    match load_config(contents) {
        Ok(c) => Ok(c.github_token),
        Err(e) => Err(e),
    }
}

/// Loads the stored account name from the file's contents.
pub fn load_username(contents: Option<&str>) -> (r: Result<String, ConfigError>)
    ensures
        match (r, spec_load(contents_view(contents))) {
            (Ok(u), Ok(cv)) => u@ == cv.github_username,
            (Err(e), Err(ev)) => e == ev,
            _ => false,
        },
{
    match load_config(contents) {
        Ok(c) => Ok(c.github_username),
        Err(e) => Err(e),
    }
}

/// Loads the secondary key.  An absent file, like an empty member, reads as
/// `None`; only unreadable text is an error.
pub fn load_openai_api_key(contents: Option<&str>) -> (r: Result<Option<String>, ConfigError>)
    ensures
        match contents_view(contents) {
            Option::None => r == Ok::<Option<String>, ConfigError>(None),
            Option::Some(s) => match spec_parse_config(s) {
                Option::None => r == Err::<Option<String>, ConfigError>(ConfigError::Corrupt),
                Option::Some(cv) => if cv.openai_api_key.len() == 0 {
                    r == Ok::<Option<String>, ConfigError>(None)
                } else {
                    r matches Ok(Some(k)) && k@ == cv.openai_api_key
                },
            },
        },
{
    match contents {
        None => Ok(None),
        Some(s) => match parse_config(s) {
            None => Err(ConfigError::Corrupt),
            Some(c) => {
                if c.openai_api_key.as_str().is_empty() {
                    Ok(None)
                } else {
                    Ok(Some(c.openai_api_key))
                }
            },
        },
    }
}

/// The record a save starts from: the stored one when it reads, the empty one
/// when the file is absent or unreadable.
pub open spec fn merge_base(contents: Option<Seq<char>>) -> ConfigV {
    match contents {
        Option::None => empty_config(),
        Option::Some(s) => match spec_parse_config(s) {
            Some(c) => c,
            None => empty_config(),
        },
    }
}

/// The executable form of [`merge_base`].
fn load_or_default(contents: Option<&str>) -> (r: Config)
    ensures
        r@ == merge_base(contents_view(contents)),
{
    match contents {
        None => Config::default(),
        Some(s) => match parse_config(s) {
            Some(c) => c,
            None => Config::default(),
        },
    }
}

/// Replaces the token and account-name members, keeps the secondary key, and
/// returns the whole record written anew.
pub fn save_credentials(contents: Option<&str>, token: &str, username: &str) -> (r: String)
    ensures
        r@ == spec_encode_config(
            ConfigV {
                github_token: token@,
                github_username: username@,
                openai_api_key: merge_base(contents_view(contents)).openai_api_key,
            },
        ),
{
    let mut c = load_or_default(contents);
    c.github_token = token.to_owned();
    c.github_username = username.to_owned();
    encode_config(&c)
}

/// Replaces the secondary key, keeps the other members, and returns the whole
/// record written anew.
pub fn save_openai_api_key(contents: Option<&str>, api_key: &str) -> (r: String)
    ensures
        r@ == spec_encode_config(
            ConfigV {
                github_token: merge_base(contents_view(contents)).github_token,
                github_username: merge_base(contents_view(contents)).github_username,
                openai_api_key: api_key@,
            },
        ),
{
    let mut c = load_or_default(contents);
    c.openai_api_key = api_key.to_owned();
    encode_config(&c)
}

} // verus!

verus! {

// ---------------------------------------------------------------------------
// The round-trip laws
// ---------------------------------------------------------------------------

/// The scanner state in the middle of the string value of the member named
/// `k`, nothing recorded yet.
spec fn st_member(k: Seq<char>) -> ScanV {
    ScanV {
        mode: Mode::InStr,
        key: k,
        val: Seq::empty(),
        depth: 0,
        esc_val: 0,
        esc_n: 0,
        nest_obj: false,
        fields: Seq::empty(),
    }
}

/// The scanner state between members, nothing recorded yet.
spec fn st_after_value() -> ScanV {
    ScanV {
        mode: Mode::AfterValue,
        key: Seq::empty(),
        val: Seq::empty(),
        depth: 0,
        esc_val: 0,
        esc_n: 0,
        nest_obj: false,
        fields: Seq::empty(),
    }
}

proof fn lemma_seg_open()
    ensures
        scan_fold(seg_open(), init_scan()) == st_member(key_token()),
{
    let s = seq![
        '{', '"', 'g', 'i', 't', 'h', 'u', 'b', '_', 't', 'o', 'k', 'e', 'n', '"', ':', '"',
    ];
    assert(seg_open() =~= s);
    reveal_with_fuel(scan_fold, 18);
    assert(scan_fold(s, init_scan()) =~= st_member(key_token()));
}

proof fn lemma_seg_username_rest()
    ensures
        scan_fold(seg_username().drop_first(), st_after_value()) == st_member(key_username()),
{
    let s = seq![
        ',', '"', 'g', 'i', 't', 'h', 'u', 'b', '_', 'u', 's', 'e', 'r', 'n', 'a', 'm', 'e', '"',
        ':', '"',
    ];
    assert(seg_username().drop_first() =~= s);
    reveal_with_fuel(scan_fold, 21);
    assert(scan_fold(s, st_after_value()) =~= st_member(key_username()));
}

proof fn lemma_seg_api_key_rest()
    ensures
        scan_fold(seg_api_key().drop_first(), st_after_value()) == st_member(key_api_key()),
{
    let s = seq![
        ',', '"', 'o', 'p', 'e', 'n', 'a', 'i', '_', 'a', 'p', 'i', '_', 'k', 'e', 'y', '"', ':',
        '"',
    ];
    assert(seg_api_key().drop_first() =~= s);
    reveal_with_fuel(scan_fold, 20);
    assert(scan_fold(s, st_after_value()) =~= st_member(key_api_key()));
}

/// Scanning a middle segment closes the member being read, records it, and
/// leaves the scanner inside the next member's value.
proof fn lemma_seg_mid(seg: Seq<char>, k_prev: Seq<char>, w: Seq<char>, fs: Seq<FieldV>, k_next: Seq<char>)
    requires
        seg.len() > 0,
        seg[0] == '"',
        scan_fold(seg.drop_first(), st_after_value()) == st_member(k_next),
    ensures
        (scan_fold(seg, ScanV { key: k_prev, val: w, fields: fs, ..st_member(k_prev) }) == ScanV {
            fields: fs.push(FieldV { name: k_prev, value: JsonValueV::Str(w) }),
            ..st_member(k_next)
        }),
{
    let st0 = ScanV { key: k_prev, val: w, fields: fs, ..st_member(k_prev) };
    assert(scan_fold(seg, st0) == scan_fold(seg.drop_first(), scan_step(st0, seg[0])));
    let f2 = fs.push(FieldV { name: k_prev, value: JsonValueV::Str(w) });
    assert(scan_step(st0, seg[0]) =~= ScanV { fields: f2 + st_after_value().fields, ..st_after_value() });
    lemma_fold_frame(seg.drop_first(), st_after_value(), f2);
    assert(f2 + st_member(k_next).fields =~= f2);
    assert(scan_fold(seg, st0) =~= ScanV { fields: f2, ..st_member(k_next) });
}

/// Scanning the closing segment records the last member and ends the object.
proof fn lemma_seg_end(k_prev: Seq<char>, w: Seq<char>, fs: Seq<FieldV>)
    ensures
        (scan_fold(seg_close(), ScanV { key: k_prev, val: w, fields: fs, ..st_member(k_prev) })
            == ScanV {
            mode: Mode::End,
            fields: fs.push(FieldV { name: k_prev, value: JsonValueV::Str(w) }),
            ..st_after_value()
        }),
{
    let st0 = ScanV { key: k_prev, val: w, fields: fs, ..st_member(k_prev) };
    reveal_with_fuel(scan_fold, 3);
    assert(seg_close()[0] == '"');
    assert(seg_close().drop_first() =~= seq!['}']);
    assert(scan_fold(seg_close(), st0) =~= ScanV {
        mode: Mode::End,
        fields: fs.push(FieldV { name: k_prev, value: JsonValueV::Str(w) }),
        ..st_after_value()
    });
}

/// The members that the canonical shape scans back to.
spec fn canonical_fields(c: ConfigV) -> Seq<FieldV> {
    seq![
        FieldV { name: key_token(), value: JsonValueV::Str(c.github_token) },
        FieldV { name: key_username(), value: JsonValueV::Str(c.github_username) },
        FieldV { name: key_api_key(), value: JsonValueV::Str(c.openai_api_key) },
    ]
}

proof fn lemma_scan_encoded(c: ConfigV)
    ensures
        scan_json(spec_encode_config(c)) == Some(canonical_fields(c)),
{
    let t = c.github_token;
    let u = c.github_username;
    let k = c.openai_api_key;
    let p1 = seg_open();
    let p2 = p1 + escape(t);
    let p3 = p2 + seg_username();
    let p4 = p3 + escape(u);
    let p5 = p4 + seg_api_key();
    let p6 = p5 + escape(k);
    let p7 = p6 + seg_close();
    assert(spec_encode_config(c) == p7);

    lemma_seg_open();
    let st1 = st_member(key_token());
    lemma_fold_concat(p1, escape(t), init_scan());
    lemma_scan_string_body(st1, t);
    let st2 = ScanV { val: t, ..st1 };
    assert(st1.val + t =~= t);
    assert(scan_fold(p2, init_scan()) == st2);

    lemma_fold_concat(p2, seg_username(), init_scan());
    lemma_seg_username_rest();
    lemma_seg_mid(seg_username(), key_token(), t, Seq::empty(), key_username());
    assert(st2 =~= ScanV { key: key_token(), val: t, fields: Seq::empty(), ..st_member(key_token()) });
    let f1 = Seq::<FieldV>::empty().push(FieldV { name: key_token(), value: JsonValueV::Str(t) });
    let st3 = ScanV { fields: f1, ..st_member(key_username()) };
    assert(scan_fold(p3, init_scan()) == st3);

    lemma_fold_concat(p3, escape(u), init_scan());
    lemma_scan_string_body(st3, u);
    let st4 = ScanV { val: u, ..st3 };
    assert(st3.val + u =~= u);
    assert(scan_fold(p4, init_scan()) == st4);

    lemma_fold_concat(p4, seg_api_key(), init_scan());
    lemma_seg_api_key_rest();
    lemma_seg_mid(seg_api_key(), key_username(), u, f1, key_api_key());
    assert(st4 =~= ScanV { key: key_username(), val: u, fields: f1, ..st_member(key_username()) });
    let f2 = f1.push(FieldV { name: key_username(), value: JsonValueV::Str(u) });
    let st5 = ScanV { fields: f2, ..st_member(key_api_key()) };
    assert(scan_fold(p5, init_scan()) == st5);

    lemma_fold_concat(p5, escape(k), init_scan());
    lemma_scan_string_body(st5, k);
    let st6 = ScanV { val: k, ..st5 };
    assert(st5.val + k =~= k);
    assert(scan_fold(p6, init_scan()) == st6);

    lemma_fold_concat(p6, seg_close(), init_scan());
    lemma_seg_end(key_api_key(), k, f2);
    assert(st6 =~= ScanV { key: key_api_key(), val: k, fields: f2, ..st_member(key_api_key()) });
    let f3 = f2.push(FieldV { name: key_api_key(), value: JsonValueV::Str(k) });
    let st7 = scan_fold(p7, init_scan());
    assert(st7.mode == Mode::End);
    assert(st7.fields == f3);
    assert(f3 =~= canonical_fields(c));
}

proof fn lemma_lookup_canonical(c: ConfigV)
    ensures
        string_member(canonical_fields(c), key_token()) == Some(Some(c.github_token)),
        string_member(canonical_fields(c), key_username()) == Some(Some(c.github_username)),
        string_member(canonical_fields(c), key_api_key()) == Some(Some(c.openai_api_key)),
{
    let fa = FieldV { name: key_token(), value: JsonValueV::Str(c.github_token) };
    let fb = FieldV { name: key_username(), value: JsonValueV::Str(c.github_username) };
    let fc = FieldV { name: key_api_key(), value: JsonValueV::Str(c.openai_api_key) };
    let fs = canonical_fields(c);
    assert(key_token().len() == 12);
    assert(key_username().len() == 15);
    assert(key_api_key().len() == 14);
    assert(fs.drop_first() =~= seq![fb, fc]);
    assert(seq![fb, fc].drop_first() =~= seq![fc]);
    assert(seq![fc].drop_first() =~= Seq::<FieldV>::empty());
    reveal_with_fuel(field_count, 5);
    reveal_with_fuel(find_field, 5);
    assert(field_count(fs, key_token()) == 1);
    assert(field_count(fs, key_username()) == 1);
    assert(field_count(fs, key_api_key()) == 1);
    assert(find_field(fs, key_token()) == Some(JsonValueV::Str(c.github_token)));
    assert(find_field(fs, key_username()) == Some(JsonValueV::Str(c.github_username)));
    assert(find_field(fs, key_api_key()) == Some(JsonValueV::Str(c.openai_api_key)));
}

/// The store's round-trip law: a record written by [`spec_encode_config`]
/// reads back unchanged, member for member and character for character.
pub proof fn lemma_config_round_trip(c: ConfigV)
    ensures
        spec_parse_config(spec_encode_config(c)) == Some(c),
{
    lemma_scan_encoded(c);
    lemma_lookup_canonical(c);
    assert(spec_parse_config(spec_encode_config(c)) == Some(ConfigV {
        github_token: c.github_token,
        github_username: c.github_username,
        openai_api_key: c.openai_api_key,
    }));
    assert(ConfigV {
        github_token: c.github_token,
        github_username: c.github_username,
        openai_api_key: c.openai_api_key,
    } =~= c);
}

/// Saving then loading returns exactly what was saved: the new token and
/// account name, and the secondary key the store already held.
pub proof fn lemma_save_load_round_trip(prior: Option<Seq<char>>, token: Seq<char>, username: Seq<char>)
    ensures
        ({
            let c = ConfigV {
                github_token: token,
                github_username: username,
                openai_api_key: merge_base(prior).openai_api_key,
            };
            spec_load(Some(spec_encode_config(c))) == Ok::<ConfigV, ConfigError>(c)
        }),
{
    let c = ConfigV {
        github_token: token,
        github_username: username,
        openai_api_key: merge_base(prior).openai_api_key,
    };
    lemma_config_round_trip(c);
}

} // verus!

verus! {

proof fn lemma_scan_encoded_pair(t: Seq<char>, u: Seq<char>)
    ensures
        (scan_json(spec_encode_pair(t, u)) == Some(
            seq![
                FieldV { name: key_token(), value: JsonValueV::Str(t) },
                FieldV { name: key_username(), value: JsonValueV::Str(u) },
            ],
        )),
{
    let p1 = seg_open();
    let p2 = p1 + escape(t);
    let p3 = p2 + seg_username();
    let p4 = p3 + escape(u);
    let p5 = p4 + seg_close();
    assert(spec_encode_pair(t, u) == p5);

    lemma_seg_open();
    let st1 = st_member(key_token());
    lemma_fold_concat(p1, escape(t), init_scan());
    lemma_scan_string_body(st1, t);
    let st2 = ScanV { val: t, ..st1 };
    assert(st1.val + t =~= t);
    assert(scan_fold(p2, init_scan()) == st2);

    lemma_fold_concat(p2, seg_username(), init_scan());
    lemma_seg_username_rest();
    lemma_seg_mid(seg_username(), key_token(), t, Seq::empty(), key_username());
    assert(st2 =~= ScanV { key: key_token(), val: t, fields: Seq::empty(), ..st_member(key_token()) });
    let f1 = Seq::<FieldV>::empty().push(FieldV { name: key_token(), value: JsonValueV::Str(t) });
    let st3 = ScanV { fields: f1, ..st_member(key_username()) };
    assert(scan_fold(p3, init_scan()) == st3);

    lemma_fold_concat(p3, escape(u), init_scan());
    lemma_scan_string_body(st3, u);
    let st4 = ScanV { val: u, ..st3 };
    assert(st3.val + u =~= u);
    assert(scan_fold(p4, init_scan()) == st4);

    lemma_fold_concat(p4, seg_close(), init_scan());
    lemma_seg_end(key_username(), u, f1);
    assert(st4 =~= ScanV { key: key_username(), val: u, fields: f1, ..st_member(key_username()) });
    let f2 = f1.push(FieldV { name: key_username(), value: JsonValueV::Str(u) });
    let st5 = scan_fold(p5, init_scan());
    assert(st5.mode == Mode::End);
    assert(st5.fields == f2);
    assert(f2 =~= seq![
        FieldV { name: key_token(), value: JsonValueV::Str(t) },
        FieldV { name: key_username(), value: JsonValueV::Str(u) },
    ]);
}

/// The schema-evolution law: a record written without the secondary-key
/// member still loads, and that member reads as the empty string.
pub proof fn lemma_pair_loads_with_empty_key(t: Seq<char>, u: Seq<char>)
    ensures
        (spec_parse_config(spec_encode_pair(t, u)) == Some(
            ConfigV { github_token: t, github_username: u, openai_api_key: Seq::empty() },
        )),
{
    lemma_scan_encoded_pair(t, u);
    let fa = FieldV { name: key_token(), value: JsonValueV::Str(t) };
    let fb = FieldV { name: key_username(), value: JsonValueV::Str(u) };
    let fs = seq![fa, fb];
    assert(key_token().len() == 12);
    assert(key_username().len() == 15);
    assert(key_api_key().len() == 14);
    assert(fs.drop_first() =~= seq![fb]);
    assert(seq![fb].drop_first() =~= Seq::<FieldV>::empty());
    reveal_with_fuel(field_count, 4);
    reveal_with_fuel(find_field, 4);
    assert(field_count(fs, key_token()) == 1);
    assert(field_count(fs, key_username()) == 1);
    assert(field_count(fs, key_api_key()) == 0);
    assert(find_field(fs, key_token()) == Some(JsonValueV::Str(t)));
    assert(find_field(fs, key_username()) == Some(JsonValueV::Str(u)));
    assert(find_field(fs, key_api_key()) is None);
}

} // verus!
