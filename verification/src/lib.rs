//! A holder for an optional value that, unlike a plain `Option`, cannot be
//! re-filled through its own extraction operations: once the value has been
//! taken out, the holder stays empty.
//!
//! The holder is built full (with [`OnceOption()`] or one of the conversions)
//! or empty ([`OnceOption::empty`] / `Default`). Reading accessors and the
//! destructive [`OnceOption::take`] demand a present value, which callers
//! establish with [`OnceOption::is_some`] / [`OnceOption::is_none`].
//! Comparisons treat emptiness as an ordinary, comparable state: an empty
//! holder equals only another empty holder and orders before every full one.

use vstd::prelude::*;
use vstd::std_specs::cmp::PartialEqSpec;
use vstd::std_specs::cmp::PartialOrdSpec;
use vstd::string::StringExecFns;

verus! {

/// A holder for an optional value. Unlike a plain `Option`, an emptied
/// `OnceOption` cannot be re-filled through its own operations: `take`
/// removes the value for good.
#[derive(Clone, Copy, Eq, Ord, Hash)]
pub struct OnceOption<T> {
    inner: Option<T>,
}

impl<T> OnceOption<T> {
    /// Whether the holder currently contains a value.
    pub closed spec fn holds_value(self) -> bool {
        self.inner is Some
    }

    /// The contained value; meaningful only when `holds_value()`.
    pub closed spec fn value(self) -> T
        recommends
            self.holds_value(),
    {
        self.inner->0
    }

    /// The holder that contains `v`.
    pub closed spec fn spec_full(v: T) -> Self {
        OnceOption { inner: Some(v) }
    }

    /// The holder that contains nothing.
    pub closed spec fn spec_empty() -> Self {
        OnceOption { inner: None }
    }
}

/// Builds a new holder containing (and owning) `value`.
#[allow(non_snake_case)]
#[must_use]
pub fn OnceOption<T>(value: T) -> (r: OnceOption<T>)
    ensures
        r == OnceOption::<T>::spec_full(value),
        r.holds_value(),
        r.value() == value,
{
    OnceOption { inner: Some(value) }
}

impl<T> OnceOption<T> {
    /// Builds a holder that contains no value. Since an emptied holder cannot
    /// be re-filled through its own operations, this is mostly a sentinel.
    #[must_use]
    pub fn empty() -> (r: Self)
        ensures
            r == Self::spec_empty(),
            !r.holds_value(),
    {
        OnceOption { inner: None }
    }

    /// Returns `true` if the holder contains a value.
    #[must_use]
    pub fn is_some(&self) -> (r: bool)
        ensures
            r == self.holds_value(),
    {
        self.inner.is_some()
    }

    /// Returns `true` if the holder is empty.
    #[must_use]
    pub fn is_none(&self) -> (r: bool)
        ensures
            r == !self.holds_value(),
    {
        self.inner.is_none()
    }

    /// Returns the contained value, consuming the holder. The caller must
    /// know the holder is full; `msg` is the diagnostic a caller would want
    /// attached to a misuse at this call site.
    pub fn expect(self, msg: &str) -> (r: T)
        requires
            self.holds_value(),
        ensures
            r == self.value(),
    {
        self.inner.expect(msg)
    }

    /// Asserts at a call site that the holder is empty; `msg` is the
    /// diagnostic a caller would want attached to a misuse here.
    pub fn expect_none(self, msg: &str)
        requires
            !self.holds_value(),
    {
        let _ = msg;
    }

    /// Returns the contained value, consuming the holder. The caller must
    /// know the holder is full.
    pub fn unwrap(self) -> (r: T)
        requires
            self.holds_value(),
        ensures
            r == self.value(),
    {
        self.inner.unwrap()
    }

    /// Removes and returns the value, leaving the holder empty. This is the
    /// single permitted extraction: afterwards the holder never again
    /// holds a value through its own operations.
    pub fn take(&mut self) -> (r: T)
        requires
            old(self).holds_value(),
        ensures
            r == old(self).value(),
            *final(self) == Self::spec_empty(),
            !final(self).holds_value(),
    {
        self.inner.take().unwrap()
    }

    /// Swaps `value` in and returns the previous value. Defined only for a
    /// full holder: it exchanges a value for a value, it never fills an
    /// empty slot.
    pub fn replace(&mut self, value: T) -> (r: T)
        requires
            old(self).holds_value(),
        ensures
            r == old(self).value(),
            *final(self) == Self::spec_full(value),
            final(self).holds_value(),
            final(self).value() == value,
    {
        let mut slot: Option<T> = Some(value);
        core::mem::swap(&mut self.inner, &mut slot);
        slot.unwrap()
    }

    /// Borrows the contained value, so that a full holder reads like the
    /// bare value. The caller must know the holder is full.
    pub fn deref(&self) -> (r: &T)
        requires
            self.holds_value(),
        ensures
            *r == self.value(),
    {
        match &self.inner {
            Some(v) => v,
            None => vstd::pervasive::unreached(),
        }
    }

    /// Mutably borrows the contained value, so that a full holder writes
    /// like the bare value: the holder ends up holding whatever the caller
    /// leaves behind the returned reference.
    pub fn deref_mut(&mut self) -> (r: &mut T)
        requires
            old(self).holds_value(),
        ensures
            *r == old(self).value(),
            *final(self) == Self::spec_full(*final(r)),
            final(self).holds_value(),
            final(self).value() == *final(r),
    {
        match &mut self.inner {
            Some(v) => v,
            None => vstd::pervasive::unreached(),
        }
    }
}

impl<T> Default for OnceOption<T> {
    /// Returns an empty holder.
    fn default() -> (r: Self)
        ensures
            r == Self::spec_empty(),
            !r.holds_value(),
    {
        OnceOption { inner: None }
    }
}

impl<T> From<T> for OnceOption<T> {
    /// Moves `value` into a new full holder.
    fn from(value: T) -> (r: Self)
        ensures
            r == Self::spec_full(value),
            r.holds_value(),
            r.value() == value,
    {
        OnceOption { inner: Some(value) }
    }
}

impl<T> vstd::std_specs::convert::FromSpecImpl<T> for OnceOption<T> {
    closed spec fn obeys_from_spec() -> bool {
        true
    }

    closed spec fn from_spec(value: T) -> Self {
        OnceOption { inner: Some(value) }
    }
}

impl<T> From<Option<T>> for OnceOption<T> {
    /// Moves a plain optional value into a holder of the matching state:
    /// full for a present value, empty for an absent one.
    fn from(value: Option<T>) -> (r: Self)
        ensures
            r.holds_value() == (value is Some),
            value is Some ==> r.value() == value->0,
    {
        OnceOption { inner: value }
    }
}

impl<T> vstd::std_specs::convert::FromSpecImpl<Option<T>> for OnceOption<T> {
    closed spec fn obeys_from_spec() -> bool {
        true
    }

    closed spec fn from_spec(value: Option<T>) -> Self {
        OnceOption { inner: value }
    }
}

impl<T: PartialEq> PartialEq for OnceOption<T> {
    /// Structural equality: empty equals only empty; full holders compare
    /// their contained values with `T`'s own equality.
    fn eq(&self, other: &Self) -> (r: bool) {
        self.inner == other.inner
    }
}

impl<T: PartialEq> vstd::std_specs::cmp::PartialEqSpecImpl for OnceOption<T> {
    closed spec fn obeys_eq_spec() -> bool {
        <T as PartialEqSpec>::obeys_eq_spec()
    }

    closed spec fn eq_spec(&self, other: &Self) -> bool {
        PartialEqSpec::eq_spec(&self.inner, &other.inner)
    }
}

impl<T: PartialOrd> PartialOrd for OnceOption<T> {
    /// Structural ordering: empty orders before full; two full holders order
    /// by their contained values with `T`'s own ordering.
    fn partial_cmp(&self, other: &Self) -> (r: Option<core::cmp::Ordering>) {
        self.inner.partial_cmp(&other.inner)
    }
}

impl<T: PartialOrd> vstd::std_specs::cmp::PartialOrdSpecImpl for OnceOption<T> {
    closed spec fn obeys_partial_cmp_spec() -> bool {
        <T as PartialOrdSpec>::obeys_partial_cmp_spec()
    }

    closed spec fn partial_cmp_spec(&self, other: &Self) -> Option<core::cmp::Ordering> {
        PartialOrdSpec::partial_cmp_spec(&self.inner, &other.inner)
    }
}

/// The shape of the debug rendering of a full holder: some middle part,
/// wrapped in the holder's own markers.
pub open spec fn debug_wrapped(middle: Seq<char>) -> Seq<char> {
    "OnceOption("@ + middle + ")"@
}

/// Relies on `core::fmt::Debug` through `format!`: renders `value`'s own
/// debug form.
#[verifier::external_body]
fn debug_repr<T: core::fmt::Debug>(value: &T) -> String {
    format!("{:?}", value)
}

impl<T: core::fmt::Debug> OnceOption<T> {
    /// The debug rendering of the holder. A full holder renders as the
    /// contained value's own debug form wrapped in the holder's markers; an
    /// empty holder renders as a fixed empty marker. Unlike the reading
    /// accessors, this never demands a present value.
    pub fn debug_str(&self) -> (r: String)
        ensures
            !self.holds_value() ==> r@ == "OnceOption::NONE"@,
            self.holds_value() ==> exists|middle: Seq<char>| r@ == #[trigger] debug_wrapped(
                middle,
            ),
    {
        match &self.inner {
            None => {
                let mut s = String::new();
                s.append("OnceOption::NONE");
                s
            },
            Some(v) => {
                let middle = debug_repr(v);
                let mut s = String::new();
                s.append("OnceOption(");
                s.append(middle.as_str());
                s.append(")");
                proof {
                    assert(s@ == debug_wrapped(middle@));
                }
                s
            },
        }
    }
}

/// Law: a holder built from a value is full and holds exactly that value;
/// the empty holder holds nothing. Since `take` leaves a holder equal to
/// `spec_empty()`, and every extraction demands `holds_value()`, a holder
/// once emptied admits no further extraction.
pub proof fn lemma_construction_state<T>(v: T)
    ensures
        OnceOption::<T>::spec_full(v).holds_value(),
        OnceOption::<T>::spec_full(v).value() == v,
        !OnceOption::<T>::spec_empty().holds_value(),
{
}

/// Law: a full holder is determined by its value, and an empty holder is
/// unique; so any holder is either `spec_empty()` or `spec_full` of its value.
pub proof fn lemma_holder_is_full_or_empty<T>(a: OnceOption<T>)
    ensures
        a.holds_value() ==> a == OnceOption::<T>::spec_full(a.value()),
        !a.holds_value() ==> a == OnceOption::<T>::spec_empty(),
{
}

/// Law: holder equality is structural. Two full holders are equal exactly
/// when `T`'s own equality holds of their values; an empty holder equals
/// only an empty holder; and the holder's equality binds its `==` whenever
/// `T`'s does.
pub proof fn lemma_eq_structural<T: PartialEq>(a: OnceOption<T>, b: OnceOption<T>)
    ensures
        <OnceOption<T> as PartialEqSpec>::obeys_eq_spec() == <T as PartialEqSpec>::obeys_eq_spec(),
        a.holds_value() && b.holds_value() ==> PartialEqSpec::eq_spec(&a, &b)
            == PartialEqSpec::eq_spec(&a.value(), &b.value()),
        !a.holds_value() && !b.holds_value() ==> PartialEqSpec::eq_spec(&a, &b),
        a.holds_value() != b.holds_value() ==> !PartialEqSpec::eq_spec(&a, &b),
{
}

/// Law: holder ordering is structural. Two full holders order exactly as
/// `T`'s own ordering orders their values; an empty holder equals an empty
/// holder and orders before every full one; and the holder's ordering binds
/// its comparison operators whenever `T`'s does.
pub proof fn lemma_ord_structural<T: PartialOrd>(a: OnceOption<T>, b: OnceOption<T>)
    ensures
        <OnceOption<T> as PartialOrdSpec>::obeys_partial_cmp_spec() == <T as PartialOrdSpec>::obeys_partial_cmp_spec(),
        a.holds_value() && b.holds_value() ==> PartialOrdSpec::partial_cmp_spec(&a, &b)
            == PartialOrdSpec::partial_cmp_spec(&a.value(), &b.value()),
        !a.holds_value() && !b.holds_value() ==> PartialOrdSpec::partial_cmp_spec(&a, &b)
            == Some(core::cmp::Ordering::Equal),
        !a.holds_value() && b.holds_value() ==> PartialOrdSpec::partial_cmp_spec(&a, &b)
            == Some(core::cmp::Ordering::Less),
        a.holds_value() && !b.holds_value() ==> PartialOrdSpec::partial_cmp_spec(&a, &b)
            == Some(core::cmp::Ordering::Greater),
{
}

} // verus!
