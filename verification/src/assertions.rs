use vstd::prelude::*;

verus! {

/// Asserts that a value is in its expected state, handing out the payload.
///
/// The assertion methods are meant for conditions that the caller of the
/// surrounding function cannot violate: the programmer is certain of the
/// condition because of the code's own internal logic. The `requires`
/// clauses demand the expected state, so verified callers never reach the
/// failure path; an unverified caller that breaks a precondition fails fast
/// at run time with a diagnostic message.
pub trait Assert: Sized {
    /// The type expected to be contained.
    type Expected;

    /// Whether `self` is in its expected state.
    spec fn is_expected(&self) -> bool;

    /// Whether `r` is the payload that `self` holds in its expected state.
    spec fn expected_is(&self, r: Self::Expected) -> bool;

    /// Asserts that `self` is in its expected state and returns the payload;
    /// the diagnostic on failure is the fixed message `assertion failed`.
    fn assert_expected(self) -> (r: Self::Expected)
        requires
            self.is_expected(),
        ensures
            self.expected_is(r),
    {
        self.assert_msg("assertion failed")
    }

    /// Asserts that `self` is in its expected state and returns the payload;
    /// the diagnostic on failure is the caller-supplied `msg`.
    fn assert_msg(self, msg: &str) -> (r: Self::Expected)
        requires
            self.is_expected(),
        ensures
            self.expected_is(r),
    ;
}

impl Assert for bool {
    type Expected = bool;

    open spec fn is_expected(&self) -> bool {
        *self
    }

    open spec fn expected_is(&self, r: bool) -> bool {
        r == *self
    }

    fn assert_msg(self, msg: &str) -> (r: bool)
        ensures
            r == self,
    {
        if self {
            self
        } else {
            vstd::pervasive::unreached()
        }
    }
}

impl<T> Assert for Option<T> {
    type Expected = T;

    open spec fn is_expected(&self) -> bool {
        (*self) is Some
    }

    open spec fn expected_is(&self, r: T) -> bool {
        *self == Some(r)
    }

    fn assert_msg(self, msg: &str) -> (r: T)
        ensures
            self == Some(r),
    {
        self.expect(msg)
    }
}

impl<'a, T> Assert for &'a Option<T> {
    type Expected = &'a T;

    open spec fn is_expected(&self) -> bool {
        (**self) is Some
    }

    open spec fn expected_is(&self, r: &'a T) -> bool {
        **self == Some(*r)
    }

    fn assert_msg(self, msg: &str) -> (r: &'a T)
        ensures
            *self == Some(*r),
    {
        self.as_ref().expect(msg)
    }
}

impl<'a, T> Assert for &'a mut Option<T> {
    type Expected = &'a mut T;

    open spec fn is_expected(&self) -> bool {
        (**self) is Some
    }

    open spec fn expected_is(&self, r: &'a mut T) -> bool {
        **self == Some(*r)
    }

    fn assert_expected(self) -> (r: &'a mut T)
        ensures
            *r == (*old(self))->0,
            *final(self) == Some(*final(r)),
    {
        self.assert_msg("assertion failed")
    }

    fn assert_msg(self, msg: &str) -> (r: &'a mut T)
        ensures
            *r == (*old(self))->0,
            *final(self) == Some(*final(r)),
    {
        self.as_mut().expect(msg)
    }
}

impl<T, E: core::fmt::Debug> Assert for Result<T, E> {
    type Expected = T;

    open spec fn is_expected(&self) -> bool {
        (*self) is Ok
    }

    open spec fn expected_is(&self, r: T) -> bool {
        *self == Ok::<T, E>(r)
    }

    fn assert_msg(self, msg: &str) -> (r: T)
        ensures
            self == Ok::<T, E>(r),
    {
        self.expect(msg)
    }
}

impl<'a, T, E: core::fmt::Debug> Assert for &'a Result<T, E> {
    type Expected = &'a T;

    open spec fn is_expected(&self) -> bool {
        (**self) is Ok
    }

    open spec fn expected_is(&self, r: &'a T) -> bool {
        **self == Ok::<T, E>(*r)
    }

    fn assert_msg(self, msg: &str) -> (r: &'a T)
        ensures
            *self == Ok::<T, E>(*r),
    {
        self.as_ref().expect(msg)
    }
}

impl<'a, T, E: core::fmt::Debug> Assert for &'a mut Result<T, E> {
    type Expected = &'a T;

    open spec fn is_expected(&self) -> bool {
        (**self) is Ok
    }

    open spec fn expected_is(&self, r: &'a T) -> bool {
        **self == Ok::<T, E>(*r)
    }

    fn assert_expected(self) -> (r: &'a T)
        ensures
            *old(self) == Ok::<T, E>(*r),
            *final(self) == *old(self),
    {
        self.assert_msg("assertion failed")
    }

    fn assert_msg(self, msg: &str) -> (r: &'a T)
        ensures
            *old(self) == Ok::<T, E>(*r),
            *final(self) == *old(self),
    {
        let shared: &'a Result<T, E> = self;
        shared.as_ref().expect(msg)
    }
}

} // verus!
