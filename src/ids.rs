use vstd::prelude::*;
use vstd::string::StringExecFns;

verus! {

/// The lower-case hexadecimal digit for `n` (below 16).
pub open spec fn hex_digit(n: nat) -> char {
    seq!['0', '1', '2', '3', '4', '5', '6', '7', '8', '9', 'a', 'b', 'c', 'd', 'e', 'f'][n as int]
}

pub open spec fn pow16(e: nat) -> nat
    decreases e,
{
    if e == 0 {
        1
    } else {
        16 * pow16((e - 1) as nat)
    }
}

/// The `k`-th of the 32 hexadecimal digits of `id`, most significant first.
pub open spec fn id_nibble(id: u128, k: int) -> nat {
    ((id as nat) / pow16((31 - k) as nat)) % 16
}

/// Which of the 32 digits stands at position `i` of the hyphenated form.
pub open spec fn digit_at(i: int) -> int {
    if i < 8 {
        i
    } else if i < 13 {
        i - 1
    } else if i < 18 {
        i - 2
    } else if i < 23 {
        i - 3
    } else {
        i - 4
    }
}

/// The canonical text of an identifier: 32 lower-case hexadecimal digits
/// in groups of 8-4-4-4-12, joined by hyphens.
pub open spec fn id_text(id: u128) -> Seq<char> {
    Seq::new(
        36,
        |i: int|
            if i == 8 || i == 13 || i == 18 || i == 23 {
                '-'
            } else {
                hex_digit(id_nibble(id, digit_at(i)))
            },
    )
}

/// What the identifier parser makes of a text: the identifier, or nothing
/// where the text is not one.
pub uninterp spec fn parsed_id(s: Seq<char>) -> Option<u128>;

/// Relies on uuid's `Uuid::parse_str`, which reads an identifier from its simple,
/// hyphenated, braced or URN form and fails on anything else.
#[verifier::external_body]
fn parse_uuid(s: &str) -> (r: Option<u128>)
    ensures
        r == parsed_id(s@),
{
    uuid::Uuid::parse_str(s).ok().map(|u| u.as_u128())
}

/// Relies on uuid's `Display` for `Uuid`, which writes the hyphenated lower-case
/// form, and on `Uuid::parse_str`, which reads that form back to the same id.
#[verifier::external_body]
pub(crate) fn uuid_string(id: u128) -> (r: String)
    ensures
        r@ == id_text(id),
        parsed_id(r@) == Some(id),
{
    uuid::Uuid::from_u128(id).to_string()
}

/// Reads an identifier from its text form.
pub fn parse_id(subject: &str) -> (r: Option<u128>)
    ensures
        r == parsed_id(subject@),
{
    parse_uuid(subject)
}

/// The canonical text of an identifier.
pub fn id_to_string(id: u128) -> (r: String)
    ensures
        r@ == id_text(id),
        parsed_id(r@) == Some(id),
{
    uuid_string(id)
}

/// The cache key under which a user's refresh token is kept.
pub fn refresh_token_key(user_id: u128) -> (r: String)
    ensures
        r@ == "refresh_token:"@ + id_text(user_id),
{
    let key = String::from_str("refresh_token:");
    key.concat(uuid_string(user_id).as_str())
}

/// The object-store path of a user's uploaded file.
pub fn object_path(user_id: u128, filename: &str) -> (r: String)
    ensures
        r@ == "user-"@ + id_text(user_id) + "/"@ + filename@,
{
    let path = String::from_str("user-");
    let path = path.concat(uuid_string(user_id).as_str());
    let path = path.concat("/");
    path.concat(filename)
}

/// The id text with each hyphen replaced by an underscore.
pub open spec fn underscored(s: Seq<char>) -> Seq<char> {
    s.map_values(|c: char| if c == '-' { '_' } else { c })
}

/// The name of a user's collection in the vector index.
pub fn collection_name(user_id: u128) -> (r: String)
    ensures
        r@ == "user_"@ + underscored(id_text(user_id)),
{
    let text = uuid_string(user_id);
    let mut name = String::from_str("user_");
    let n = text.as_str().unicode_len();
    let mut i: usize = 0;
    while i < n
        invariant
            n == text@.len(),
            i <= n,
            name@ == "user_"@ + underscored(text@).take(i as int),
        decreases n - i,
    {
        let c = text.as_str().get_char(i);
        if c == '-' {
            name.append("_");
        } else {
            let piece = text.as_str().substring_char(i, i + 1);
            name.append(piece);
        }
        proof {
            reveal_strlit("_");
            assert(underscored(text@).take(i + 1) =~= underscored(text@).take(i as int).push(
                underscored(text@)[i as int],
            ));
        }
        i = i + 1;
    }
    proof {
        assert(underscored(text@).take(n as int) =~= underscored(text@));
    }
    name
}

} // verus!
