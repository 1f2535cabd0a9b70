//! Finding the monitor that the ball was last docked to.
use vstd::prelude::*;

use crate::text;
use crate::text::{chars_of, decode_utf16_lossy, eq_ignore_ascii_case};

verus! {

/// A text without the zeros at its end.
pub open spec fn without_trailing_nuls(text: Seq<char>) -> Seq<char>
    decreases text.len(),
{
    if text.len() > 0 && text.last() == '\0' {
        without_trailing_nuls(text.drop_last())
    } else {
        text
    }
}

/// The name of a monitor, out of the fixed-length field it is reported in.
pub fn monitor_device(field: &[u16]) -> (name: String)
    ensures
        name@ == without_trailing_nuls(text::from_utf16(field@)),
{
    let whole = decode_utf16_lossy(field, 0, field.len());
    assert(field@.subrange(0, field@.len() as int) =~= field@);
    let chars = chars_of(whole.as_str());
    let mut end: usize = chars.len();
    assert(chars@.take(end as int) =~= chars@);
    while end > 0 && chars[end - 1] == '\0'
        invariant
            end <= chars.len(),
            without_trailing_nuls(chars@.take(end as int)) == without_trailing_nuls(chars@),
        decreases end,
    {
        assert(chars@.take(end as int).drop_last() =~= chars@.take(end - 1));
        end -= 1;
    }
    let mut name = String::new();
    let mut i: usize = 0;
    while i < end
        invariant
            i <= end <= chars.len(),
            name@ == chars@.take(i as int),
        decreases end - i,
    {
        name.push(chars[i]);
        i += 1;
        assert(name@ =~= chars@.take(i as int));
    }
    name
}

/// A monitor's name has no zero at its end, and a name without one is kept whole.
pub proof fn law_names_end_before_the_padding(text: Seq<char>)
    ensures
        without_trailing_nuls(text).len() > 0 ==> without_trailing_nuls(text).last() != '\0',
        without_trailing_nuls(text).is_prefix_of(text),
        text.len() > 0 && text.last() != '\0' ==> without_trailing_nuls(text) == text,
        forall|i: int|
            without_trailing_nuls(text).len() <= i < text.len() ==> #[trigger] text[i] == '\0',
    decreases text.len(),
{
    if text.len() > 0 && text.last() == '\0' {
        law_names_end_before_the_padding(text.drop_last());
        assert forall|i: int| without_trailing_nuls(text).len() <= i < text.len() implies
            #[trigger] text[i] == '\0' by {
            if i < text.len() - 1 {
                assert(text.drop_last()[i] == text[i]);
            }
        }
    }
}

/// Whether a monitor is the one that was asked for.
pub open spec fn is_named(device: Seq<char>, wanted: Seq<char>) -> bool {
    text::lowered(device) == text::lowered(wanted)
}

/// Whether none of the monitors is the one that was asked for.
pub open spec fn none_is_named(devices: Seq<String>, wanted: Seq<char>) -> bool {
    forall|i: int| 0 <= i < devices.len() ==> !is_named(#[trigger] devices[i]@, wanted)
}

/// The first of the monitors with this name, whatever the case of its letters; an empty name
/// asks for none.
pub fn monitor_for_device(devices: &[String], device: &str) -> (found: Option<usize>)
    ensures
        device@.len() == 0 ==> found is None,
        found is None ==> device@.len() == 0 || forall|i: int|
            0 <= i < devices@.len() ==> !is_named(#[trigger] devices@[i]@, device@),
        found is None ==> device@.len() == 0 || none_is_named(devices@, device@),
        found matches Some(at) ==> {
            &&& at < devices@.len()
            &&& is_named(devices@[at as int]@, device@)
            &&& forall|i: int| 0 <= i < at ==> !is_named(#[trigger] devices@[i]@, device@)
        },
{
    if chars_of(device).len() == 0 {
        return None;
    }
    let mut i: usize = 0;
    while i < devices.len()
        invariant
            i <= devices.len(),
            device@.len() > 0,
            forall|j: int| 0 <= j < i ==> !is_named(#[trigger] devices@[j]@, device@),
        decreases devices.len() - i,
    {
        if eq_ignore_ascii_case(devices[i].as_str(), device) {
            return Some(i);
        }
        i += 1;
    }
    None
}

/// The monitor found is the first that goes by the name, whatever the case of its letters; none is
/// found of an empty name, and one always is where one goes by the name.
pub proof fn law_monitors_are_found_by_name(
    devices: &[String],
    device: &str,
    found: Option<usize>,
    i: int,
)
    requires
        call_ensures(monitor_for_device, (devices, device), found),
        0 <= i < devices@.len(),
    ensures
        device@.len() == 0 ==> found is None,
        found is Some ==> found->0 < devices@.len() && text::agree_but_for_case(
            devices@[found->0 as int]@,
            device@,
        ),
        device@.len() > 0 && text::agree_but_for_case(devices@[i]@, device@) ==> found is Some
            && found->0 <= i,
{
    text::lemma_lowered_agree(devices@[i]@, device@);
    assert(is_named(devices@[i]@, device@) == text::agree_but_for_case(devices@[i]@, device@));
    if found is Some {
        text::lemma_lowered_agree(devices@[found->0 as int]@, device@);
    }
}

/// A monitor's name is its field's text without the zeros that fill the field up.
pub proof fn law_padding_is_no_part_of_a_name(field: &[u16], name: String, whole: String)
    requires
        call_ensures(monitor_device, (field,), name),
        call_ensures(decode_utf16_lossy, (field, 0, field@.len() as usize), whole),
        field@.len() <= usize::MAX,
    ensures
        name@.len() <= whole@.len(),
        name@ == whole@.take(name@.len() as int),
        name@.len() > 0 ==> name@.last() != '\0',
        forall|i: int| name@.len() <= i < whole@.len() ==> #[trigger] whole@[i] == '\0',
{
    assert(field@.subrange(0, field@.len() as int) =~= field@);
    law_names_end_before_the_padding(whole@);
    assert(name@ =~= whole@.take(name@.len() as int));
}

} // verus!
