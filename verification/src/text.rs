use crate::status::{ServiceDetails, ServiceDetailsView};
use vstd::prelude::*;
use vstd::slice::slice_subrange;
use vstd::utf8::{decode_utf8, valid_utf8};

verus! {

/// The text that lossy decoding makes of `bytes`: the text they encode, with
/// a replacement character wherever they are not UTF-8.
pub uninterp spec fn lossy_text(bytes: Seq<u8>) -> Seq<char>;

/// `String::from_utf8_lossy`, with the result owned. The result depends on
/// the bytes alone; bytes that are UTF-8 give the text they encode, and
/// nothing else is claimed of the others.
#[verifier::external_body]
fn decode_lossy(bytes: &[u8]) -> (text: String)
    ensures
        text@ == lossy_text(bytes@),
        valid_utf8(bytes@) ==> text@ == decode_utf8(bytes@),
{
    String::from_utf8_lossy(bytes).into_owned()
}

/// `String::push`: the character is appended.
#[verifier::external_body]
fn push_char(text: &mut String, c: char)
    ensures
        final(text)@ == old(text)@.push(c),
{
    text.push(c);
}

/// How many bytes of a field count as text: those before the first zero
/// byte, and all of them if there is none.
pub open spec fn text_len(field: Seq<u8>) -> int
    decreases field.len(),
{
    if field.len() == 0 || field[0] == 0 {
        0
    } else {
        1 + text_len(field.drop_first())
    }
}

/// The text length is where the first zero byte stands.
pub proof fn lemma_text_len(field: Seq<u8>)
    ensures
        0 <= text_len(field) <= field.len(),
        forall|j: int| 0 <= j < text_len(field) ==> field[j] != 0,
        text_len(field) < field.len() ==> field[text_len(field)] == 0,
    decreases field.len(),
{
    if field.len() == 0 || field[0] == 0 {
    } else {
        let rest = field.drop_first();
        lemma_text_len(rest);
        assert forall|j: int| 0 <= j < text_len(field) implies field[j] != 0 by {
            if j > 0 {
                assert(rest[j - 1] == field[j]);
            }
        }
    }
}

/// The text of a field is what its bytes up to the first zero byte decode to.
pub open spec fn field_text_of(field: Seq<u8>) -> Seq<char> {
    lossy_text(field.take(text_len(field)))
}

/// Finds the end of the text in a fixed-width field.
pub fn text_end(field: &[u8]) -> (end: usize)
    ensures
        end == text_len(field@),
{
    let mut end: usize = 0;
    assert(field@.skip(0) =~= field@);
    while end < field.len() && field[end] != 0
        invariant
            end <= field.len(),
            text_len(field@) == end + text_len(field@.skip(end as int)),
        decreases field.len() - end,
    {
        assert(field@.skip(end as int).drop_first() =~= field@.skip(end + 1));
        end = end + 1;
    }
    end
}

/// Reads the text of a fixed-width field: the bytes before the first zero
/// byte, decoded as UTF-8, with a replacement character wherever they are
/// not. A field that starts with a zero byte, or has no bytes, is empty.
pub fn field_text(field: &[u8]) -> (text: String)
    ensures
        text@ == field_text_of(field@),
        valid_utf8(field@.take(text_len(field@))) ==> text@ == decode_utf8(
            field@.take(text_len(field@)),
        ),
{
    let end = text_end(field);
    proof {
        lemma_text_len(field@);
    }
    let used = slice_subrange(field, 0, end);
    assert(used@ =~= field@.take(end as int));
    decode_lossy(used)
}

/// The character that a wide unit is narrowed to: the one whose code is the
/// unit's low byte.
pub open spec fn narrowed(unit: u32) -> char {
    ((unit % 256) as u8) as char
}

/// How many units of a wide string count as text: those before the first
/// zero unit, and all of them if there is none.
pub open spec fn wide_len(units: Seq<u32>) -> int
    decreases units.len(),
{
    if units.len() == 0 || units[0] == 0 {
        0
    } else {
        1 + wide_len(units.drop_first())
    }
}

/// The text of a wide string: its units before the first zero unit, each
/// narrowed to a character.
pub open spec fn narrow_text_of(units: Seq<u32>) -> Seq<char>
    decreases units.len(),
{
    if units.len() == 0 || units[0] == 0 {
        Seq::empty()
    } else {
        seq![narrowed(units[0])] + narrow_text_of(units.drop_first())
    }
}

/// Reads the text of a wide string, unit by unit, up to the first zero unit.
pub fn narrow_text(units: &[u32]) -> (text: String)
    ensures
        text@ == narrow_text_of(units@),
{
    let mut text = String::new();
    let mut i: usize = 0;
    assert(units@.skip(0) =~= units@);
    while i < units.len() && units[i] != 0
        invariant
            i <= units.len(),
            narrow_text_of(units@) == text@ + narrow_text_of(units@.skip(i as int)),
        decreases units.len() - i,
    {
        let low = (units[i] % 256) as u8;
        let ghost before = text@;
        push_char(&mut text, low as char);
        proof {
            let rest = units@.skip(i as int);
            assert(rest.drop_first() =~= units@.skip(i + 1));
            assert(before + (seq![narrowed(units[i as int])] + narrow_text_of(rest.drop_first()))
                =~= before.push(narrowed(units[i as int])) + narrow_text_of(
                rest.drop_first(),
            ));
        }
        i = i + 1;
    }
    assert(text@ + Seq::<char>::empty() =~= text@);
    text
}

impl ServiceDetailsView {
    /// The details that six fixed-width fields hold.
    pub open spec fn of_fields(
        service_name: Seq<u8>,
        service_display_name: Seq<u8>,
        executable_path: Seq<u8>,
        description: Seq<u8>,
        service_type: Seq<u8>,
        service_account: Seq<u8>,
    ) -> ServiceDetailsView {
        ServiceDetailsView {
            service_name: field_text_of(service_name),
            service_display_name: field_text_of(service_display_name),
            executable_path: field_text_of(executable_path),
            description: field_text_of(description),
            service_type: field_text_of(service_type),
            service_account: field_text_of(service_account),
        }
    }
}

impl ServiceDetails {
    /// Reads the details out of the six fixed-width fields that the
    /// inspector fills. A field that was left empty gives an empty text, and
    /// bytes that are not UTF-8 are replaced, so this never fails.
    pub fn from_fields(
        service_name: &[u8],
        service_display_name: &[u8],
        executable_path: &[u8],
        description: &[u8],
        service_type: &[u8],
        service_account: &[u8],
    ) -> (details: ServiceDetails)
        ensures
            details@ == ServiceDetailsView::of_fields(
                service_name@,
                service_display_name@,
                executable_path@,
                description@,
                service_type@,
                service_account@,
            ),
    {
        ServiceDetails {
            service_name: field_text(service_name),
            service_display_name: field_text(service_display_name),
            executable_path: field_text(executable_path),
            description: field_text(description),
            service_type: field_text(service_type),
            service_account: field_text(service_account),
        }
    }
}

} // verus!
