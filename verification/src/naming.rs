//! Deterministic mapping from a managed-object identity to the external
//! resource name. The common case keeps the identity readable
//! (`events-<identity>`); identities that are too long or outside the
//! external naming grammar switch to a digest-based fallback that is
//! always valid and collision-resistant, and re-derivable from the
//! identity alone.
use vstd::prelude::*;
use vstd::string::*;

verus! {

/// The external system's ceiling on resource-name length.
pub const MAX_TOPIC_LEN: usize = 63;

/// The lowercase hexadecimal rendering of the digest of the identity.
/// Named only: its value is fixed by the digest function, the same for
/// the same identity on every call.
pub uninterp spec fn md5_hex_of(s: Seq<char>) -> Seq<char>;

/// The lowercase form of a character sequence, as Unicode case folding
/// produces it.
pub uninterp spec fn lower_of(s: Seq<char>) -> Seq<char>;

/// True for the lowercase hexadecimal digits.
pub open spec fn is_hex_lower(c: char) -> bool {
    ('0' <= c && c <= '9') || ('a' <= c && c <= 'f')
}

/// Relies on md5::compute and the digest's LowerHex rendering: each of
/// the 16 digest bytes is written as two lowercase hexadecimal digits,
/// and the digest is a function of the input alone.
#[verifier::external_body]
fn md5_hex(s: &str) -> (r: String)
    ensures
        r@ == md5_hex_of(s@),
        r@.len() == 32,
        forall|i: int| 0 <= i < 32 ==> is_hex_lower(#[trigger] r@[i]),
{
    format!("{:x}", md5::compute(s))
}

/// Relies on str::to_lowercase: the result depends on the characters alone.
#[verifier::external_body]
fn lowercase(s: &str) -> (r: String)
    ensures
        r@ == lower_of(s@),
{
    s.to_lowercase()
}

/// Relies on String's FromIterator over char: collecting yields the
/// string of exactly the given characters.
#[verifier::external_body]
fn string_from_chars(v: &Vec<char>) -> (r: String)
    ensures
        r@ == v@,
{
    v.iter().collect()
}

/// The characters of a string, in order.
fn chars_of(s: &str) -> (r: Vec<char>)
    ensures
        r@ == s@,
{
    let n = s.unicode_len();
    let mut v: Vec<char> = Vec::new();
    let mut i: usize = 0;
    while i < n
        invariant
            n == s@.len(),
            i <= n,
            v@ == s@.subrange(0, i as int),
        decreases n - i,
    {
        v.push(s.get_char(i));
        assert(v@ =~= s@.subrange(0, i as int + 1));
        i += 1;
    }
    assert(v@ =~= s@);
    v
}

/// True for lowercase ASCII letters and digits.
pub open spec fn is_lower_alnum(c: char) -> bool {
    ('a' <= c && c <= 'z') || ('0' <= c && c <= '9')
}

/// True for the characters a resource name may hold between dots.
pub open spec fn is_name_char(c: char) -> bool {
    is_lower_alnum(c) || c == '-'
}

fn is_lower_alnum_exec(c: char) -> (r: bool)
    ensures
        r == is_lower_alnum(c),
{
    ('a' <= c && c <= 'z') || ('0' <= c && c <= '9')
}

/// The external naming grammar: nonempty, lowercase alphanumerics and
/// hyphens in dot-separated segments, every segment nonempty and neither
/// starting nor ending with a hyphen.
pub open spec fn grammar_ok(s: Seq<char>) -> bool {
    &&& s.len() > 0
    &&& is_lower_alnum(s[0])
    &&& is_lower_alnum(s[s.len() - 1])
    &&& forall|i: int| 0 <= i < s.len() ==> is_name_char(#[trigger] s[i]) || s[i] == '.'
    &&& forall|i: int| 0 <= i < s.len() && #[trigger] s[i] == '.' ==> 0 < i && i < s.len() - 1
        && is_lower_alnum(s[i - 1]) && is_lower_alnum(s[i + 1])
}

/// Whether the character sequence satisfies the external naming grammar.
pub fn grammar_check(v: &Vec<char>) -> (r: bool)
    ensures
        r == grammar_ok(v@),
{
    let n = v.len();
    if n == 0 {
        return false;
    }
    if !is_lower_alnum_exec(v[0]) {
        return false;
    }
    if !is_lower_alnum_exec(v[n - 1]) {
        return false;
    }
    let mut i: usize = 0;
    while i < n
        invariant
            n == v@.len(),
            0 < n,
            i <= n,
            is_lower_alnum(v@[0]),
            is_lower_alnum(v@[n - 1]),
            forall|k: int| 0 <= k < i ==> is_name_char(#[trigger] v@[k]) || v@[k] == '.',
            forall|k: int| 0 <= k < i && #[trigger] v@[k] == '.' ==> 0 < k && k < n - 1
                && is_lower_alnum(v@[k - 1]) && is_lower_alnum(v@[k + 1]),
        decreases n - i,
    {
        let c = v[i];
        let name_char = is_lower_alnum_exec(c) || c == '-';
        if !(name_char || c == '.') {
            return false;
        }
        if c == '.' {
            if i == 0 || i == n - 1 {
                return false;
            }
            if !is_lower_alnum_exec(v[i - 1]) {
                return false;
            }
            if !is_lower_alnum_exec(v[i + 1]) {
                return false;
            }
        }
        i += 1;
    }
    true
}

/// Keeps the characters a name may hold; every other character becomes a
/// hyphen.
pub open spec fn sanitize_char(c: char) -> char {
    if is_name_char(c) {
        c
    } else {
        '-'
    }
}

/// Character-wise sanitizing of a whole sequence.
pub open spec fn spec_sanitize(s: Seq<char>) -> Seq<char> {
    s.map_values(|c: char| sanitize_char(c))
}

/// The sequence cut down to the length ceiling.
pub open spec fn spec_clip(s: Seq<char>) -> Seq<char> {
    if s.len() <= MAX_TOPIC_LEN {
        s
    } else {
        s.subrange(0, MAX_TOPIC_LEN as int)
    }
}

/// The sequence with every trailing hyphen removed.
pub open spec fn spec_trim(s: Seq<char>) -> Seq<char>
    decreases s.len(),
{
    if s.len() > 0 && s[s.len() - 1] == '-' {
        spec_trim(s.drop_last())
    } else {
        s
    }
}

/// What trimming trailing hyphens leaves: a prefix that ends on the last
/// character that is not a hyphen.
proof fn lemma_trim_props(s: Seq<char>)
    ensures
        spec_trim(s).len() <= s.len(),
        forall|k: int| 0 <= k < spec_trim(s).len() ==> #[trigger] spec_trim(s)[k] == s[k],
        spec_trim(s).len() > 0 ==> spec_trim(s)[spec_trim(s).len() - 1] != '-',
        forall|i: int| 0 <= i < s.len() && #[trigger] s[i] != '-' ==> spec_trim(s).len() > i,
    decreases s.len(),
{
    if s.len() > 0 && s[s.len() - 1] == '-' {
        lemma_trim_props(s.drop_last());
        assert forall|i: int| 0 <= i < s.len() && #[trigger] s[i] != '-'
            implies spec_trim(s).len() > i by {
            assert(i < s.len() - 1);
            assert(s.drop_last()[i] != '-');
        }
    }
}

/// The readable candidate name for an identity.
pub open spec fn simple_name(name: Seq<char>) -> Seq<char> {
    "events-"@ + name
}

/// Whether the readable candidate may be used as it stands.
pub open spec fn spec_simple_ok(name: Seq<char>) -> bool {
    simple_name(name).len() < MAX_TOPIC_LEN && grammar_ok(simple_name(name))
}

/// The raw fallback: a distinct prefix, the digest, then the folded
/// identity.
pub open spec fn fallback_raw(name: Seq<char>, hash: Seq<char>) -> Seq<char> {
    "evt-"@ + hash + "-"@ + lower_of(name)
}

/// The fallback name: the raw form sanitized, cut to the ceiling, and
/// stripped of trailing hyphens.
pub open spec fn fallback_name(name: Seq<char>, hash: Seq<char>) -> Seq<char> {
    spec_trim(spec_clip(spec_sanitize(fallback_raw(name, hash))))
}

/// The resource name derived from an identity: the readable candidate
/// when it is valid and under the ceiling, the digest fallback otherwise.
pub open spec fn topic_name(name: Seq<char>) -> Seq<char> {
    if spec_simple_ok(name) {
        simple_name(name)
    } else {
        fallback_name(name, md5_hex_of(name))
    }
}

/// Derives the external resource name for the given identity.
pub fn topic_resource_name(name: &str) -> (r: String)
    ensures
        r@ == topic_name(name@),
{
    let simple = String::from_str("events-").concat(name);
    let simple_chars = chars_of(simple.as_str());
    let fits = simple_chars.len() < MAX_TOPIC_LEN;
    let valid = grammar_check(&simple_chars);
    if fits && valid {
        return simple;
    }
    let hash = md5_hex(name);
    let low = lowercase(name);
    let mut raw = chars_of("evt-");
    let mut part = chars_of(hash.as_str());
    raw.append(&mut part);
    let mut dash = chars_of("-");
    raw.append(&mut dash);
    let mut folded = chars_of(low.as_str());
    raw.append(&mut folded);
    assert(raw@ == fallback_raw(name@, md5_hex_of(name@)));
    let ghost san = spec_sanitize(raw@);
    let total = raw.len();
    let n = if total < MAX_TOPIC_LEN {
        total
    } else {
        MAX_TOPIC_LEN
    };
    assert(san.len() == raw@.len());
    let mut out: Vec<char> = Vec::new();
    let mut i: usize = 0;
    while i < n
        invariant
            n <= total,
            total == raw@.len(),
            n == if total < MAX_TOPIC_LEN { total as int } else { MAX_TOPIC_LEN as int },
            i <= n,
            san == spec_sanitize(raw@),
            san.len() == raw@.len(),
            out@ == san.subrange(0, i as int),
        decreases n - i,
    {
        let c = raw[i];
        let name_char = is_lower_alnum_exec(c) || c == '-';
        if name_char {
            out.push(c);
        } else {
            out.push('-');
        }
        assert(out@ =~= san.subrange(0, i as int + 1));
        i += 1;
    }
    assert(out@ =~= spec_clip(san));
    let ghost clipped = spec_clip(san);
    while out.len() > 0 && out[out.len() - 1] == '-'
        invariant
            spec_trim(out@) == spec_trim(clipped),
        decreases out.len(),
    {
        let ghost before = out@;
        out.pop();
        assert(out@ =~= before.drop_last());
    }
    proof {
        if out@.len() > 0 {
            assert(out@[out@.len() - 1] != '-');
        }
        assert(spec_trim(out@) == out@);
    }
    string_from_chars(&out)
}

/// Law: the derived resource name is a pure function of the identity and
/// always satisfies the external naming grammar and the length ceiling.
pub proof fn lemma_topic_name_well_formed(name: Seq<char>)
    ensures
        grammar_ok(topic_name(name)),
        topic_name(name).len() <= MAX_TOPIC_LEN,
{
    if spec_simple_ok(name) {
    } else {
        lemma_fallback_well_formed(name, md5_hex_of(name));
    }
}

/// The fallback form is well formed for every identity and every digest.
proof fn lemma_fallback_well_formed(name: Seq<char>, hash: Seq<char>)
    ensures
        grammar_ok(fallback_name(name, hash)),
        fallback_name(name, hash).len() <= MAX_TOPIC_LEN,
{
    reveal_strlit("evt-");
    reveal_strlit("-");
    let raw = fallback_raw(name, hash);
    let san = spec_sanitize(raw);
    let clipped = spec_clip(san);
    let trimmed = spec_trim(clipped);
    assert("evt-"@.len() == 4);
    assert(raw.len() >= 5);
    assert(san.len() == raw.len());
    assert(clipped.len() >= 5 && clipped.len() <= MAX_TOPIC_LEN);
    assert(raw[0] == 'e' && raw[1] == 'v' && raw[2] == 't');
    assert forall|k: int| 0 <= k < san.len() implies is_name_char(#[trigger] san[k])
        && san[k] != '.' by {
        assert(san[k] == sanitize_char(raw[k]));
    }
    lemma_trim_props(clipped);
    assert(clipped[2] == san[2]);
    assert(san[2] == sanitize_char(raw[2]));
    assert(san[2] == 't');
    assert(trimmed.len() > 2);
    assert(trimmed[0] == clipped[0]);
    assert(san[0] == sanitize_char(raw[0]));
    assert(clipped[0] == san[0]);
    assert(trimmed[0] == 'e');
    assert(is_lower_alnum(trimmed[0]));
    assert(is_name_char(trimmed[trimmed.len() - 1]) && trimmed[trimmed.len() - 1] != '-');
    assert(is_lower_alnum(trimmed[trimmed.len() - 1]));
    assert forall|i: int| 0 <= i < trimmed.len() implies is_name_char(#[trigger] trimmed[i])
        || trimmed[i] == '.' by {
        assert(trimmed[i] == clipped[i]);
    }
    assert forall|i: int| 0 <= i < trimmed.len() && #[trigger] trimmed[i] == '.' implies 0 < i
        && i < trimmed.len() - 1 && is_lower_alnum(trimmed[i - 1])
        && is_lower_alnum(trimmed[i + 1]) by {
        assert(trimmed[i] == clipped[i]);
        assert(is_name_char(clipped[i]) && clipped[i] != '.');
    }
}

/// Law: identities that need the fallback collide only if their digests
/// collide — distinct digests give distinct names, whatever the
/// identities. The digest bounds hold of every value the digest wrapper
/// returns.
pub proof fn lemma_fallback_names_distinct(
    n1: Seq<char>,
    h1: Seq<char>,
    n2: Seq<char>,
    h2: Seq<char>,
)
    requires
        h1.len() == 32,
        h2.len() == 32,
        forall|i: int| 0 <= i < 32 ==> is_hex_lower(#[trigger] h1[i]),
        forall|i: int| 0 <= i < 32 ==> is_hex_lower(#[trigger] h2[i]),
        h1 != h2,
    ensures
        fallback_name(n1, h1) != fallback_name(n2, h2),
{
    reveal_strlit("evt-");
    assert(exists|i: int| 0 <= i < 32 && h1[i] != h2[i]) by {
        if forall|i: int| 0 <= i < 32 ==> h1[i] == h2[i] {
            assert(h1 =~= h2);
        }
    }
    let i = choose|i: int| 0 <= i < 32 && h1[i] != h2[i];
    lemma_fallback_digest_index(n1, h1, i);
    lemma_fallback_digest_index(n2, h2, i);
    assert(fallback_name(n1, h1)[4 + i] == h1[i]);
    assert(fallback_name(n2, h2)[4 + i] == h2[i]);
}

/// In a fallback name built from a well-formed digest, the digest
/// characters survive sanitizing, clipping and trimming at their
/// positions.
proof fn lemma_fallback_digest_index(name: Seq<char>, hash: Seq<char>, i: int)
    requires
        hash.len() == 32,
        forall|k: int| 0 <= k < 32 ==> is_hex_lower(#[trigger] hash[k]),
        0 <= i < 32,
    ensures
        fallback_name(name, hash).len() > 35,
        fallback_name(name, hash)[4 + i] == hash[i],
{
    reveal_strlit("evt-");
    reveal_strlit("-");
    let raw = fallback_raw(name, hash);
    let san = spec_sanitize(raw);
    let clipped = spec_clip(san);
    assert("evt-"@.len() == 4);
    assert(raw.len() == 37 + lower_of(name).len());
    assert(san.len() == raw.len());
    assert(clipped.len() >= 37);
    assert forall|k: int| 0 <= k < 32 implies #[trigger] raw[4 + k] == hash[k] by {
        assert(("evt-"@ + hash)[4 + k] == hash[k]);
    }
    assert forall|k: int| 0 <= k < 32 implies #[trigger] san[4 + k] == hash[k] by {
        assert(san[4 + k] == sanitize_char(raw[4 + k]));
        assert(is_hex_lower(hash[k]));
        assert(is_name_char(hash[k]));
    }
    assert(clipped[35] == san[35]);
    assert(san[35] == hash[31]);
    assert(is_hex_lower(hash[31]));
    assert(clipped[35] != '-');
    lemma_trim_props(clipped);
    assert(spec_trim(clipped).len() > 35);
    assert(spec_trim(clipped)[4 + i] == clipped[4 + i]);
    assert(clipped[4 + i] == san[4 + i]);
    assert(san[4 + i] == hash[i]);
}

} // verus!
