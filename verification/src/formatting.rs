//! Display formatting: a postal address as a block of lines, and phone
//! numbers in the national or international convention of their country.

use vstd::prelude::*;

use crate::models::Address;
use crate::strutil::{is_digit_char, spec_is_blank, str_eq, str_is_blank};

verus! {

/// Appends one character to a string.
///
/// Relies on `String::push`, which appends exactly the given character.
#[verifier::external_body]
fn push_char(s: &mut String, c: char)
    ensures
        final(s)@ == old(s)@.push(c),
{
    s.push(c);
}

/// The postal-code/city/state line of a formatted address.
pub open spec fn spec_city_line(a: Address) -> Seq<char> {
    if a.state is Some {
        a.postal_code@ + " "@ + a.city@ + " "@ + a.state->Some_0@
    } else {
        a.postal_code@ + " "@ + a.city@
    }
}

/// The full formatted address: one line per populated field, blank
/// company and second street lines skipped.
pub open spec fn spec_format_address(a: Address) -> Seq<char> {
    a.name@ + (if a.company is Some && !spec_is_blank(a.company->Some_0@) {
        "\n"@ + a.company->Some_0@
    } else {
        Seq::<char>::empty()
    }) + "\n"@ + a.street1@ + (if a.street2 is Some && !spec_is_blank(a.street2->Some_0@) {
        "\n"@ + a.street2->Some_0@
    } else {
        Seq::<char>::empty()
    }) + "\n"@ + spec_city_line(a) + "\n"@ + a.country@
}

/// Formats an address for display, one line per populated field.
pub fn format_address(address: &Address) -> (r: String)
    ensures
        r@ == spec_format_address(*address),
{
    let mut out = String::from_str(address.name.as_str());
    if let Some(company) = &address.company {
        if !str_is_blank(company.as_str()) {
            out.append("\n");
            out.append(company.as_str());
        }
    }
    out.append("\n");
    out.append(address.street1.as_str());
    if let Some(street2) = &address.street2 {
        if !str_is_blank(street2.as_str()) {
            out.append("\n");
            out.append(street2.as_str());
        }
    }
    out.append("\n");
    out.append(address.postal_code.as_str());
    out.append(" ");
    out.append(address.city.as_str());
    if let Some(state) = &address.state {
        out.append(" ");
        out.append(state.as_str());
    }
    out.append("\n");
    out.append(address.country.as_str());
    proof {
        assert(out@ =~= spec_format_address(*address));
    }
    out
}

/// The ASCII digits of a string, in order, everything else dropped.
pub open spec fn spec_digits_of(s: Seq<char>) -> Seq<char>
    decreases s.len(),
{
    if s.len() == 0 {
        Seq::<char>::empty()
    } else {
        spec_digits_of(s.drop_last()) + (if is_digit_char(s.last()) {
            seq![s.last()]
        } else {
            Seq::<char>::empty()
        })
    }
}

/// Collects the ASCII digits of a string, in order.
fn collect_digits(s: &str) -> (r: Vec<char>)
    ensures
        r@ == spec_digits_of(s@),
{
    let len = s.unicode_len();
    let mut digits: Vec<char> = Vec::new();
    let mut i: usize = 0;
    while i < len
        invariant
            len == s@.len(),
            i <= len,
            digits@ == spec_digits_of(s@.take(i as int)),
        decreases len - i,
    {
        let c = s.get_char(i);
        proof {
            assert(s@.take(i + 1).drop_last() =~= s@.take(i as int));
            assert(s@.take(i + 1).last() == s@[i as int]);
        }
        if c >= '0' && c <= '9' {
            digits.push(c);
        }
        proof {
            assert(digits@ =~= spec_digits_of(s@.take(i + 1)));
        }
        i += 1;
    }
    proof {
        assert(s@.take(len as int) =~= s@);
    }
    digits
}

/// What `format_phone_france` returns: the international convention when
/// the digits read as +33 followed by nine digits, the national
/// convention when they read as 0 followed by nine digits, the input
/// unchanged otherwise.
pub open spec fn spec_format_phone_france(s: Seq<char>) -> Seq<char> {
    let d = spec_digits_of(s);
    if d.len() >= 11 && d[0] == '3' && d[1] == '3' {
        seq![
            '+', d[0], d[1], ' ', d[2], ' ', d[3], d[4], ' ', d[5], d[6], ' ', d[7], d[8], ' ',
            d[9], d[10],
        ]
    } else if d.len() >= 10 && d[0] == '0' {
        seq![d[0], d[1], ' ', d[2], d[3], ' ', d[4], d[5], ' ', d[6], d[7], ' ', d[8], d[9]]
    } else {
        s
    }
}

/// Formats a phone number the French way: `+33 1 23 45 67 89`
/// internationally, `01 23 45 67 89` nationally, or unchanged when its
/// digits fit neither shape.
pub fn format_phone_france(phone: &str) -> (r: String)
    ensures
        r@ == spec_format_phone_france(phone@),
{
    let digits = collect_digits(phone);
    if digits.len() >= 11 && digits[0] == '3' && digits[1] == '3' {
        let mut out = String::new();
        push_char(&mut out, '+');
        push_char(&mut out, digits[0]);
        push_char(&mut out, digits[1]);
        push_char(&mut out, ' ');
        push_char(&mut out, digits[2]);
        push_char(&mut out, ' ');
        push_char(&mut out, digits[3]);
        push_char(&mut out, digits[4]);
        push_char(&mut out, ' ');
        push_char(&mut out, digits[5]);
        push_char(&mut out, digits[6]);
        push_char(&mut out, ' ');
        push_char(&mut out, digits[7]);
        push_char(&mut out, digits[8]);
        push_char(&mut out, ' ');
        push_char(&mut out, digits[9]);
        push_char(&mut out, digits[10]);
        proof {
            assert(out@ =~= spec_format_phone_france(phone@));
        }
        out
    } else if digits.len() >= 10 && digits[0] == '0' {
        let mut out = String::new();
        push_char(&mut out, digits[0]);
        push_char(&mut out, digits[1]);
        push_char(&mut out, ' ');
        push_char(&mut out, digits[2]);
        push_char(&mut out, digits[3]);
        push_char(&mut out, ' ');
        push_char(&mut out, digits[4]);
        push_char(&mut out, digits[5]);
        push_char(&mut out, ' ');
        push_char(&mut out, digits[6]);
        push_char(&mut out, digits[7]);
        push_char(&mut out, ' ');
        push_char(&mut out, digits[8]);
        push_char(&mut out, digits[9]);
        proof {
            assert(out@ =~= spec_format_phone_france(phone@));
        }
        out
    } else {
        String::from_str(phone)
    }
}

/// What `format_phone_usa` returns: the international convention when the
/// digits read as 1 followed by at least ten digits, the national
/// convention when at least ten digits remain, the input unchanged
/// otherwise.
pub open spec fn spec_format_phone_usa(s: Seq<char>) -> Seq<char> {
    let d = spec_digits_of(s);
    if d.len() >= 11 && d[0] == '1' {
        seq![
            '+', d[0], ' ', '(', d[1], d[2], d[3], ')', ' ', d[4], d[5], d[6], '-', d[7], d[8],
            d[9], d[10],
        ]
    } else if d.len() >= 10 {
        seq!['(', d[0], d[1], d[2], ')', ' ', d[3], d[4], d[5], '-', d[6], d[7], d[8], d[9]]
    } else {
        s
    }
}

/// Formats a phone number the American way: `+1 (123) 456-7890`
/// internationally, `(123) 456-7890` nationally, or unchanged when its
/// digits fit neither shape.
pub fn format_phone_usa(phone: &str) -> (r: String)
    ensures
        r@ == spec_format_phone_usa(phone@),
{
    let digits = collect_digits(phone);
    if digits.len() >= 11 && digits[0] == '1' {
        let mut out = String::new();
        push_char(&mut out, '+');
        push_char(&mut out, digits[0]);
        push_char(&mut out, ' ');
        push_char(&mut out, '(');
        push_char(&mut out, digits[1]);
        push_char(&mut out, digits[2]);
        push_char(&mut out, digits[3]);
        push_char(&mut out, ')');
        push_char(&mut out, ' ');
        push_char(&mut out, digits[4]);
        push_char(&mut out, digits[5]);
        push_char(&mut out, digits[6]);
        push_char(&mut out, '-');
        push_char(&mut out, digits[7]);
        push_char(&mut out, digits[8]);
        push_char(&mut out, digits[9]);
        push_char(&mut out, digits[10]);
        proof {
            assert(out@ =~= spec_format_phone_usa(phone@));
        }
        out
    } else if digits.len() >= 10 {
        let mut out = String::new();
        push_char(&mut out, '(');
        push_char(&mut out, digits[0]);
        push_char(&mut out, digits[1]);
        push_char(&mut out, digits[2]);
        push_char(&mut out, ')');
        push_char(&mut out, ' ');
        push_char(&mut out, digits[3]);
        push_char(&mut out, digits[4]);
        push_char(&mut out, digits[5]);
        push_char(&mut out, '-');
        push_char(&mut out, digits[6]);
        push_char(&mut out, digits[7]);
        push_char(&mut out, digits[8]);
        push_char(&mut out, digits[9]);
        proof {
            assert(out@ =~= spec_format_phone_usa(phone@));
        }
        out
    } else {
        String::from_str(phone)
    }
}

/// What `format_phone` returns: the country's convention where one is
/// known, the input unchanged otherwise.
pub open spec fn spec_format_phone(s: Seq<char>, country: Seq<char>) -> Seq<char> {
    if country == "FR"@ {
        spec_format_phone_france(s)
    } else if country == "US"@ {
        spec_format_phone_usa(s)
    } else {
        s
    }
}

/// Formats a phone number in the convention of the given country; for a
/// country without a known convention the number is returned unchanged.
pub fn format_phone(phone: &str, country: &str) -> (r: String)
    ensures
        r@ == spec_format_phone(phone@, country@),
{
    if str_eq(country, "FR") {
        format_phone_france(phone)
    } else if str_eq(country, "US") {
        format_phone_usa(phone)
    } else {
        String::from_str(phone)
    }
}

} // verus!
