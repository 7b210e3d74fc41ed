//! Connected-device handles and device-name normalization.
//!
//! A [`Device`] stands for one device connected to the remote session: the
//! raw name it reported and the session's numeric index for it, by which the
//! actuation layer addresses the real handle. Registry keys are normalized
//! names: the raw name with every non-alphanumeric character stripped.
use vstd::prelude::*;
use vstd::string::*;

verus! {

/// Whether `char::is_alphanumeric` holds of the character: membership in the
/// Unicode letter or number general categories.
pub uninterp spec fn is_alnum(c: char) -> bool;

/// Relies on `char::is_alphanumeric`: the result depends on the character
/// alone (a fixed Unicode property table).
#[verifier::external_body]
pub fn char_is_alphanumeric(c: char) -> (r: bool)
    ensures
        r == is_alnum(c),
{
    c.is_alphanumeric()
}

/// The normalized form of a raw device name: its alphanumeric characters, in
/// order, with everything else stripped.
pub open spec fn normalize_spec(name: Seq<char>) -> Seq<char> {
    name.filter(|c: char| is_alnum(c))
}

/// Strips every non-alphanumeric character from a raw device name, yielding
/// the stable registry key for the device.
pub fn normalize_device_name(name: &str) -> (r: String)
    ensures
        r@ == normalize_spec(name@),
{
    let len = name.unicode_len();
    let mut out: String = String::new();
    let mut i: usize = 0;
    while i < len
        invariant
            len == name@.len(),
            i <= len,
            out@ == normalize_spec(name@.take(i as int)),
        decreases len - i,
    {
        let c = name.get_char(i);
        proof {
            let taken = name@.take(i + 1 as int);
            assert(taken.drop_last() =~= name@.take(i as int));
            assert(taken.last() == name@[i as int]);
            reveal_with_fuel(Seq::filter, 2);
        }
        if char_is_alphanumeric(c) {
            crate::text::push_char(&mut out, c);
        }
        i += 1;
    }
    proof {
        assert(name@.take(len as int) =~= name@);
    }
    out
}

/// One connected device: the raw name it reported and the numeric index under
/// which the remote session addresses it.
#[derive(Debug, Clone, PartialEq, Eq, Hash)]
pub struct Device {
    pub name: String,
    pub index: u32,
}

/// The mathematical value of a [`Device`]: its raw name as a character
/// sequence, and its session index.
pub ghost struct DeviceView {
    pub name: Seq<char>,
    pub index: u32,
}

impl View for Device {
    type V = DeviceView;

    open spec fn view(&self) -> DeviceView {
        DeviceView { name: self.name@, index: self.index }
    }
}

impl DeepView for Device {
    type V = DeviceView;

    open spec fn deep_view(&self) -> DeviceView {
        self.view()
    }
}

impl Device {
    /// An exact copy of the handle, usable where one device is delivered to
    /// several places (the registry under two keys, or several in-flight
    /// commands).
    pub fn duplicate(&self) -> (r: Device)
        ensures
            r == *self,
    {
        Device { name: self.name.clone(), index: self.index }
    }
}

} // verus!
