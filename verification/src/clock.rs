use vstd::prelude::*;

verus! {

/// Milliseconds since the Unix epoch now (`chrono::Utc::now().timestamp_millis()`).
/// Nothing is stated of the value: it depends on the machine's clock.
#[verifier::external_body]
pub(crate) fn now_millis() -> i64 {
    chrono::Utc::now().timestamp_millis()
}

} // verus!

verus! {

pub open spec fn is_lower_hex(c: char) -> bool {
    ('0' <= c && c <= '9') || ('a' <= c && c <= 'f')
}

/// The text of a random (version 4, RFC 4122 variant) UUID in hyphenated
/// lower-case form.
pub open spec fn is_uuid_v4_text(s: Seq<char>) -> bool {
    &&& s.len() == 36
    &&& forall|i: int|
        0 <= i < 36 ==> if i == 8 || i == 13 || i == 18 || i == 23 {
            s[i] == '-'
        } else {
            is_lower_hex(#[trigger] s[i])
        }
    &&& s[14] == '4'
    &&& (s[19] == '8' || s[19] == '9' || s[19] == 'a' || s[19] == 'b')
}

/// A fresh random id (`uuid::Uuid::new_v4().to_string()`): its text is a
/// hyphenated lower-case version 4 UUID; which one is left to chance.
#[verifier::external_body]
pub(crate) fn new_uuid() -> (r: String)
    ensures
        is_uuid_v4_text(r@),
{
    uuid::Uuid::new_v4().to_string()
}

} // verus!

verus! {

/// What `chrono::DateTime::parse_from_rfc3339` makes of `text`, converted
/// to UTC: the instant as (Unix seconds, nanoseconds), or the text of
/// chrono's parse error.
pub uninterp spec fn rfc3339_parse(text: Seq<char>) -> Result<(i64, u32), Seq<char>>;

/// Parses an RFC 3339 timestamp and converts it to UTC
/// (`chrono::DateTime::parse_from_rfc3339(..).with_timezone(&Utc)`). The
/// result is whatever chrono computes for the text (named
/// `rfc3339_parse`); the grammar itself is not restated here.
#[verifier::external_body]
pub(crate) fn parse_rfc3339_utc(text: &str) -> (r: Result<(i64, u32), String>)
    ensures
        match r {
            Ok(p) => rfc3339_parse(text@) == Ok::<(i64, u32), Seq<char>>(p),
            Err(e) => rfc3339_parse(text@) == Err::<(i64, u32), Seq<char>>(e@),
        },
{
    match chrono::DateTime::parse_from_rfc3339(text) {
        Ok(t) => {
            let u = t.with_timezone(&chrono::Utc);
            Ok((u.timestamp(), u.timestamp_subsec_nanos()))
        },
        Err(e) => Err(e.to_string()),
    }
}

} // verus!
