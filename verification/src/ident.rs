//! The identifier generator: the four values that make up a fresh identity.

use vstd::prelude::*;
use crate::text::{
    hex_digit, hex_digit_of, is_alphanumeric, is_lower_alphanumeric, is_lower_hex, is_upper_hex,
    lower_char, to_lower, to_upper, upper_text,
};

verus! {

/// Length of a templated identifier and of a unique identifier in canonical form.
pub const ID_LENGTH: usize = 36;

/// Number of random hexadecimal digits in a templated identifier.
pub const NIBBLE_COUNT: usize = 31;

/// Number of random characters that end a machine identifier.
pub const MACHINE_ID_RANDOM_LENGTH: usize = 32;

/// The positions of the four hyphens of the template.
pub open spec fn is_hyphen_position(i: int) -> bool {
    i == 8 || i == 13 || i == 18 || i == 23
}

/// The position of the version digit, always `4`.
pub open spec fn is_version_position(i: int) -> bool {
    i == 14
}

/// The position of the variant digit, one of `8`, `9`, `a`, `b`.
pub open spec fn is_variant_position(i: int) -> bool {
    i == 19
}

/// The values that the variant digit may take in lowercase notation.
pub open spec fn is_variant_digit(c: char) -> bool {
    c == '8' || c == '9' || c == 'a' || c == 'b'
}

/// Whether `c` may stand at position `i` of `xxxxxxxx-xxxx-4xxx-yxxx-xxxxxxxxxxxx`.
pub open spec fn template_allows(i: int, c: char) -> bool {
    if is_hyphen_position(i) {
        c == '-'
    } else if is_version_position(i) {
        c == '4'
    } else if is_variant_position(i) {
        is_variant_digit(c)
    } else {
        is_lower_hex(c)
    }
}

/// The template `xxxxxxxx-xxxx-4xxx-yxxx-xxxxxxxxxxxx`: 36 characters, hyphens
/// at their four positions, `4` as the version digit, the variant digit out
/// of `8`, `9`, `a`, `b`, and a lowercase hexadecimal digit everywhere else.
pub open spec fn matches_template(s: Seq<char>) -> bool {
    &&& s.len() == 36
    &&& forall|i: int| 0 <= i < 36 ==> template_allows(i, #[trigger] s[i])
}

/// Whether `c` may stand at position `i` of the template in uppercase notation.
pub open spec fn upper_template_allows(i: int, c: char) -> bool {
    if is_hyphen_position(i) {
        c == '-'
    } else if is_version_position(i) {
        c == '4'
    } else if is_variant_position(i) {
        c == '8' || c == '9' || c == 'A' || c == 'B'
    } else {
        is_upper_hex(c)
    }
}

/// A unique identifier in uppercase notation between `{` and `}`.
pub open spec fn matches_braced_template(s: Seq<char>) -> bool {
    &&& s.len() == 38
    &&& s[0] == '{'
    &&& s[37] == '}'
    &&& forall|i: int| 0 <= i < 36 ==> upper_template_allows(i, #[trigger] s[i + 1])
}

/// How many of the template's fixed characters stand before position `i`.
pub open spec fn fixed_before(i: int) -> int {
    (if i > 8 { 1int } else { 0 }) + (if i > 13 { 1int } else { 0 })
        + (if i > 14 { 1int } else { 0 }) + (if i > 18 { 1int } else { 0 })
        + (if i > 23 { 1int } else { 0 })
}

/// The random digits that a templated identifier accepts: 31 values below
/// 16, the one for the variant position between 8 and 11.
pub open spec fn valid_nibbles(nibbles: Seq<u8>) -> bool {
    &&& nibbles.len() == 31
    &&& forall|k: int| 0 <= k < 31 ==> #[trigger] nibbles[k] < 16
    &&& 8 <= nibbles[15] < 12
}

/// The templated identifier whose random digits are `nibbles`, in order.
pub open spec fn template_text(nibbles: Seq<u8>) -> Seq<char> {
    Seq::new(
        36,
        |i: int|
            if is_hyphen_position(i) {
                '-'
            } else if is_version_position(i) {
                '4'
            } else {
                hex_digit(nibbles[i - fixed_before(i)] as int)
            },
    )
}

/// The text of the sampled bytes, letters in lowercase.
pub open spec fn lowered_samples(samples: Seq<u8>) -> Seq<char> {
    Seq::new(samples.len(), |i: int| lower_char(samples[i] as char))
}

/// Every character is a lowercase ASCII letter or a digit.
pub open spec fn all_lower_alphanumeric(s: Seq<char>) -> bool {
    forall|i: int| 0 <= i < s.len() ==> is_lower_alphanumeric(#[trigger] s[i])
}

/// The text `{`, then `inner` in uppercase, then `}`.
pub open spec fn braced_upper_text(inner: Seq<char>) -> Seq<char> {
    seq!['{'] + upper_text(inner) + seq!['}']
}

/// Two hexadecimal digits per byte, the high half first.
pub open spec fn hex_text(bytes: Seq<u8>) -> Seq<char> {
    Seq::new(
        2 * bytes.len(),
        |i: int|
            if i % 2 == 0 {
                hex_digit(bytes[i / 2] as int / 16)
            } else {
                hex_digit(bytes[i / 2] as int % 16)
            },
    )
}

/// The bytes of `auth0|user_`, which every machine identifier starts with
/// in hexadecimal notation.
pub open spec fn machine_id_prefix_bytes() -> Seq<u8> {
    seq![97u8, 117u8, 116u8, 104u8, 48u8, 124u8, 117u8, 115u8, 101u8, 114u8, 95u8]
}

/// `rand::Rng::sample` of `rand::distributions::Alphanumeric` on the
/// generator that `rand::thread_rng` returns: a byte out of the ASCII
/// letters `a` to `z`, `A` to `Z` and the digits. Which one is left open.
#[verifier::external_body]
fn sample_alphanumeric() -> (b: u8)
    ensures
        is_alphanumeric(b as char),
{
    rand::Rng::sample(&mut rand::thread_rng(), rand::distributions::Alphanumeric)
}

/// `rand::Rng::gen_range` over `low..high` on the generator that
/// `rand::thread_rng` returns: a value of the half-open range, which is not
/// empty. Which one is left open.
#[verifier::external_body]
fn random_in_range(low: u8, high: u8) -> (n: u8)
    requires
        low < high,
    ensures
        low <= n < high,
{
    rand::Rng::gen_range(&mut rand::thread_rng(), low..high)
}

/// `uuid::Uuid::new_v4` written out by the identifier's `Display`: a random
/// identifier of version 4 in hyphenated lowercase notation, so the version
/// digit is `4` and the variant digit one of `8`, `9`, `a`, `b`.
#[verifier::external_body]
fn uuid_v4_text() -> (s: String)
    ensures
        matches_template(s@),
{
    uuid::Uuid::new_v4().to_string()
}

/// Writes sampled bytes as text, with ASCII letters in lowercase.
pub fn lowercase_text(samples: &Vec<u8>) -> (text: String)
    ensures
        text@ == lowered_samples(samples@),
{
    let mut text = String::new();
    let mut i: usize = 0;
    while i < samples.len()
        invariant
            i <= samples.len(),
            text@ == lowered_samples(samples@).subrange(0, i as int),
        decreases samples.len() - i,
    {
        let c = to_lower(samples[i] as char);
        text.push(c);
        i += 1;
    }
    text
}

/// A string of `length` random characters out of the lowercase ASCII
/// letters and the digits.
pub fn random_hex(length: usize) -> (text: String)
    ensures
        text@.len() == length,
        all_lower_alphanumeric(text@),
{
    let mut samples: Vec<u8> = Vec::new();
    let mut i: usize = 0;
    while i < length
        invariant
            i <= length,
            samples@.len() == i,
            forall|k: int| 0 <= k < i ==> is_alphanumeric(#[trigger] samples@[k] as char),
        decreases length - i,
    {
        let b = sample_alphanumeric();
        samples.push(b);
        i += 1;
    }
    lowercase_text(&samples)
}

/// Fills the template with digits that are known to fit.
fn fill_template(nibbles: &Vec<u8>) -> (id: String)
    requires
        valid_nibbles(nibbles@),
    ensures
        id@ == template_text(nibbles@),
        matches_template(id@),
{
    let mut id = String::new();
    let mut i: usize = 0;
    let mut used: usize = 0;
    while i < ID_LENGTH
        invariant
            i <= 36,
            used == i - fixed_before(i as int),
            valid_nibbles(nibbles@),
            id@ == template_text(nibbles@).subrange(0, i as int),
        decreases 36 - i,
    {
        if i == 8 || i == 13 || i == 18 || i == 23 {
            id.push('-');
        } else if i == 14 {
            id.push('4');
        } else {
            id.push(hex_digit_of(nibbles[used]));
            used += 1;
        }
        i += 1;
    }
    proof {
        lemma_template_text_matches(nibbles@);
    }
    id
}

/// Whether the digits are such as a templated identifier accepts.
pub fn nibbles_fit(nibbles: &Vec<u8>) -> (fit: bool)
    ensures
        fit == valid_nibbles(nibbles@),
{
    if nibbles.len() != NIBBLE_COUNT {
        return false;
    }
    let mut k: usize = 0;
    while k < NIBBLE_COUNT
        invariant
            k <= 31,
            nibbles@.len() == 31,
            forall|j: int| 0 <= j < k ==> #[trigger] nibbles@[j] < 16,
        decreases 31 - k,
    {
        if nibbles[k] >= 16 {
            return false;
        }
        k += 1;
    }
    8 <= nibbles[15] && nibbles[15] < 12
}

/// Fills the template `xxxxxxxx-xxxx-4xxx-yxxx-xxxxxxxxxxxx` with the given
/// digits, in order: 31 values below 16, of which the one for `y` lies
/// between 8 and 11. Any other list of digits gives `None`.
pub fn templated_id_from(nibbles: &Vec<u8>) -> (id: Option<String>)
    ensures
        id is Some <==> valid_nibbles(nibbles@),
        id matches Some(text) ==> text@ == template_text(nibbles@) && matches_template(text@),
{
    if nibbles_fit(nibbles) {
        Some(fill_template(nibbles))
    } else {
        None
    }
}

/// The text of valid digits has the shape of the template.
pub proof fn lemma_template_text_matches(nibbles: Seq<u8>)
    requires
        valid_nibbles(nibbles),
    ensures
        matches_template(template_text(nibbles)),
{
    let s = template_text(nibbles);
    assert forall|i: int| 0 <= i < 36 implies template_allows(i, #[trigger] s[i]) by {
        let k = i - fixed_before(i);
        if !is_hyphen_position(i) && !is_version_position(i) {
            assert(0 <= k < 31);
            assert(nibbles[k] < 16);
            if is_variant_position(i) {
                assert(k == 15);
            }
        }
    }
}

/// An identifier of the form `xxxxxxxx-xxxx-4xxx-yxxx-xxxxxxxxxxxx`, each
/// `x` a random hexadecimal digit and `y` a random one of `8`, `9`, `a`, `b`.
pub fn new_templated_id() -> (id: String)
    ensures
        matches_template(id@),
{
    let mut nibbles: Vec<u8> = Vec::new();
    let mut k: usize = 0;
    while k < NIBBLE_COUNT
        invariant
            k <= 31,
            nibbles@.len() == k,
            forall|j: int| 0 <= j < k ==> #[trigger] nibbles@[j] < 16,
            k > 15 ==> 8 <= nibbles@[15] < 12,
        decreases 31 - k,
    {
        let n = if k == 15 {
            random_in_range(8, 12)
        } else {
            random_in_range(0, 16)
        };
        nibbles.push(n);
        k += 1;
    }
    fill_template(&nibbles)
}

/// A random unique identifier of version 4 in canonical form: hyphenated,
/// in lowercase hexadecimal notation.
pub fn new_unique_id() -> (id: String)
    ensures
        matches_template(id@),
{
    uuid_v4_text()
}

/// Wraps an identifier in `{` and `}` and writes its letters in uppercase.
pub fn braced_uppercase(id: &str) -> (text: String)
    ensures
        text@ == braced_upper_text(id@),
{
    let mut text = String::new();
    text.push('{');
    let n = id.unicode_len();
    let mut i: usize = 0;
    while i < n
        invariant
            i <= n,
            n == id@.len(),
            text@ == seq!['{'] + upper_text(id@).subrange(0, i as int),
        decreases n - i,
    {
        let c = to_upper(id.get_char(i));
        text.push(c);
        i += 1;
    }
    text.push('}');
    text
}

/// The uppercase braced form of a canonical identifier keeps its shape.
pub proof fn lemma_braced_upper_matches(id: Seq<char>)
    requires
        matches_template(id),
    ensures
        matches_braced_template(braced_upper_text(id)),
{
    let s = braced_upper_text(id);
    assert forall|i: int| 0 <= i < 36 implies upper_template_allows(i, #[trigger] s[i + 1]) by {
        assert(s[i + 1] == upper_text(id)[i]);
        assert(template_allows(i, id[i]));
    }
}

/// A random unique identifier of version 4, in uppercase between `{` and `}`.
pub fn new_unique_id_uppercase_braced() -> (id: String)
    ensures
        matches_braced_template(id@),
{
    let inner = uuid_v4_text();
    proof {
        lemma_braced_upper_matches(inner@);
    }
    braced_uppercase(inner.as_str())
}

/// Writes each byte as two lowercase hexadecimal digits.
pub fn hex_encode(bytes: &[u8]) -> (text: String)
    ensures
        text@ == hex_text(bytes@),
{
    let mut text = String::new();
    let mut i: usize = 0;
    while i < bytes.len()
        invariant
            i <= bytes.len(),
            text@ == hex_text(bytes@).subrange(0, 2 * i as int),
        decreases bytes.len() - i,
    {
        let b = bytes[i];
        text.push(hex_digit_of(b / 16));
        text.push(hex_digit_of(b % 16));
        i += 1;
    }
    text
}

/// The shape of a machine identifier: `auth0|user_` in hexadecimal notation,
/// then 32 characters out of the lowercase ASCII letters and the digits.
pub open spec fn is_machine_id(s: Seq<char>) -> bool {
    &&& s.len() == 54
    &&& s.subrange(0, 22) == hex_text(machine_id_prefix_bytes())
    &&& all_lower_alphanumeric(s.subrange(22, 54))
}

/// The fixed start of every machine identifier.
pub fn machine_id_prefix() -> (prefix: String)
    ensures
        prefix@ == hex_text(machine_id_prefix_bytes()),
{
    let bytes: [u8; 11] = [97, 117, 116, 104, 48, 124, 117, 115, 101, 114, 95];
    hex_encode(bytes.as_slice())
}

/// The fixed start of every machine identifier reads `61757468307c757365725f`.
pub proof fn lemma_machine_id_prefix_text()
    ensures
        hex_text(machine_id_prefix_bytes()) == "61757468307c757365725f"@,
{
    reveal_strlit("61757468307c757365725f");
    let s = hex_text(machine_id_prefix_bytes());
    let t = "61757468307c757365725f"@;
    assert(s.len() == 22);
    assert forall|i: int| 0 <= i < 22 implies s[i] == t[i] by {
        let b = machine_id_prefix_bytes()[i / 2];
        assert(b as int / 16 < 16 && b as int % 16 < 16);
    }
    assert(s =~= t);
}

/// The machine identifier that ends with `random_part`.
pub fn machine_id_from(random_part: &str) -> (id: String)
    ensures
        id@ == hex_text(machine_id_prefix_bytes()) + random_part@,
{
    let mut id = machine_id_prefix();
    id.append(random_part);
    id
}

/// A machine identifier with a fresh random part.
pub fn new_machine_id() -> (id: String)
    ensures
        is_machine_id(id@),
{
    let random_part = random_hex(MACHINE_ID_RANDOM_LENGTH);
    let id = machine_id_from(random_part.as_str());
    assert(id@.subrange(0, 22) == hex_text(machine_id_prefix_bytes()));
    assert(id@.subrange(22, 54) == random_part@);
    id
}

/// The four values that a reset writes into the configuration.
#[derive(Debug, PartialEq, Eq)]
pub struct IdentitySet {
    /// `auth0|user_` in hexadecimal notation and 32 random characters.
    pub machine_id: String,
    /// A templated identifier.
    pub mac_machine_id: String,
    /// A unique identifier in canonical form.
    pub dev_device_id: String,
    /// A unique identifier in uppercase between `{` and `}`.
    pub sqm_id: String,
}

/// The four values of an identity as plain texts.
pub struct IdentityView {
    pub machine_id: Seq<char>,
    pub mac_machine_id: Seq<char>,
    pub dev_device_id: Seq<char>,
    pub sqm_id: Seq<char>,
}

impl View for IdentitySet {
    type V = IdentityView;

    open spec fn view(&self) -> IdentityView {
        IdentityView {
            machine_id: self.machine_id@,
            mac_machine_id: self.mac_machine_id@,
            dev_device_id: self.dev_device_id@,
            sqm_id: self.sqm_id@,
        }
    }
}

impl Clone for IdentitySet {
    fn clone(&self) -> (copy: IdentitySet)
        ensures
            copy@ == self@,
    {
        IdentitySet {
            machine_id: self.machine_id.clone(),
            mac_machine_id: self.mac_machine_id.clone(),
            dev_device_id: self.dev_device_id.clone(),
            sqm_id: self.sqm_id.clone(),
        }
    }
}

impl IdentitySet {
    /// Each of the four values has the shape that its generator gives it.
    pub open spec fn well_formed(&self) -> bool {
        &&& is_machine_id(self.machine_id@)
        &&& matches_template(self.mac_machine_id@)
        &&& matches_template(self.dev_device_id@)
        &&& matches_braced_template(self.sqm_id@)
    }

    /// A fresh identity: every value is generated anew.
    pub fn generate() -> (ids: IdentitySet)
        ensures
            ids.well_formed(),
    {
        let mac_machine_id = new_templated_id();
        let dev_device_id = new_unique_id();
        let machine_id = new_machine_id();
        let sqm_id = new_unique_id_uppercase_braced();
        IdentitySet { machine_id, mac_machine_id, dev_device_id, sqm_id }
    }
}

} // verus!
