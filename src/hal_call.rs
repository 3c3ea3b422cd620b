use vstd::prelude::*;

verus! {

/// A status code that a HAL call reported; zero means success.
#[derive(Clone, Copy, Debug, PartialEq, Eq, Structural)]
pub struct HalError(pub i32);

impl From<i32> for HalError {
    fn from(code: i32) -> (r: HalError)
        ensures
            r.0 == code,
    {
        HalError(code)
    }
}

impl vstd::std_specs::convert::FromSpecImpl<i32> for HalError {
    open spec fn obeys_from_spec() -> bool {
        true
    }

    open spec fn from_spec(code: i32) -> HalError {
        HalError(code)
    }
}

pub type HalResult<T> = Result<T, HalError>;

/// What a HAL call gives back: its value and its status code, as a result.
pub open spec fn status_result<T>(value: T, status: i32) -> HalResult<T> {
    if status == 0 {
        Ok(value)
    } else {
        Err(HalError(status))
    }
}

/// The result of a HAL call that returned `value` and reported `status`.
pub fn hal_status<T>(value: T, status: i32) -> (r: HalResult<T>)
    ensures
        r == status_result(value, status),
{
    if status == 0 {
        Ok(value)
    } else {
        Err(HalError::from(status))
    }
}

/// A value together with the error, if any, that came with it.
#[derive(Clone, Copy, Debug)]
pub struct HalMaybe<T> {
    ret: T,
    err: Option<HalError>,
}

impl<T> HalMaybe<T> {
    pub closed spec fn value(&self) -> T {
        self.ret
    }

    pub closed spec fn error(&self) -> Option<HalError> {
        self.err
    }

    pub fn new(ret: T, err: Option<HalError>) -> (r: HalMaybe<T>)
        ensures
            r.value() == ret,
            r.error() == err,
    {
        HalMaybe { ret, err }
    }

    /// The value, whether or not an error came with it.
    pub fn ok(self) -> (r: T)
        ensures
            r == self.value(),
    {
        self.ret
    }

    pub fn has_err(&self) -> (r: bool)
        ensures
            r == self.error().is_some(),
    {
        self.err.is_some()
    }

    pub fn err(&self) -> (r: Option<HalError>)
        ensures
            r == self.error(),
    {
        self.err
    }

    /// The error where there is one, else the value.
    pub fn into_res(self) -> (r: HalResult<T>)
        ensures
            r == (match self.error() {
                Some(e) => Err(e),
                None => Ok(self.value()),
            }),
    {
        if let Some(x) = self.err {
            Err(x)
        } else {
            Ok(self.ret)
        }
    }
}

/// The value of a HAL call that returned `value` and reported `status`,
/// with the error that a non-zero status stands for.
pub fn maybe_status<T>(value: T, status: i32) -> (r: HalMaybe<T>)
    ensures
        r.value() == value,
        r.error() == (if status == 0 {
            None
        } else {
            Some(HalError(status))
        }),
{
    HalMaybe::new(
        value,
        if status == 0 {
            None
        } else {
            Some(HalError::from(status))
        },
    )
}

} // verus!
