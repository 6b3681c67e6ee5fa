//! Reader selection and card-presence detection.
//!
//! A reader descriptor is the opaque name string a subsystem enumeration
//! returns. Selection deterministically picks the first descriptor in
//! enumeration order — a deliberate single-reader simplification. Presence is
//! a bit inside the reader's hardware-reported status value; the polling loop
//! succeeds exactly when that bit appears in an observed event state.

use vstd::prelude::*;
use crate::error::{ErrorSpec, NfcError};

verus! {

/// The status value a presence poll starts from: no knowledge of the reader.
pub const STATE_UNAWARE: u64 = 0x0000;

/// The bit of a reader status value that reports a card physically present,
/// as the PC/SC reader-state convention defines it.
pub const STATE_PRESENT: u64 = 0x0020;

/// Whether a hardware-reported event state includes the "card present" bit.
pub open spec fn spec_present(event_state: u64) -> bool {
    event_state & STATE_PRESENT != 0
}

/// Decides from one observed event state whether a card is present.
pub fn presence_detected(event_state: u64) -> (r: bool)
    ensures
        r == spec_present(event_state),
{
    event_state & STATE_PRESENT != 0
}

/// Which reader a list of enumerated descriptors selects: the first, or
/// [`ErrorSpec::NoReaderFound`] when the list is empty.
pub open spec fn spec_select(names: Seq<Seq<char>>) -> Result<Seq<char>, ErrorSpec> {
    if names.len() == 0 {
        Result::Err(ErrorSpec::NoReaderFound)
    } else {
        Result::Ok(names[0])
    }
}

/// Picks the first enumerated reader descriptor; fails on an empty list.
pub fn select_reader(names: &Vec<String>) -> (r: Result<String, NfcError>)
    ensures
        r is Ok <==> names@.len() > 0,
        r matches Ok(n) ==> Result::<Seq<char>, ErrorSpec>::Ok(n@) == spec_select(
            names.deep_view(),
        ),
        r matches Err(e) ==> Result::<Seq<char>, ErrorSpec>::Err(e@) == spec_select(
            names.deep_view(),
        ),
{
    if names.len() == 0 {
        Err(NfcError::NoReaderFound)
    } else {
        let n = names[0].clone();
        Ok(n)
    }
}

/// Selection is first-wins and order-stable: whatever descriptors are
/// appended after a non-empty list, the selected reader does not change.
pub proof fn lemma_select_first_wins(names: Seq<Seq<char>>, appended: Seq<Seq<char>>)
    requires
        names.len() > 0,
    ensures
        spec_select(names + appended) == spec_select(names),
{
    assert((names + appended)[0] == names[0]);
}

} // verus!
