//! Error propagation that tells recoverable errors, typed and meant to be
//! handled by the caller, from unrecoverable ones, carried as an opaque
//! `eyre::Report` up to a top-level handler.
use vstd::prelude::*;

verus! {

/// The opaque error report of `eyre`; its contents are never inspected here.
#[verifier::external_type_specification]
#[verifier::external_body]
pub struct ExReport(eyre::Report);

/// An error that can never be instantiated.
///
/// As the recoverable type of an [`Exception`] it says that a call site
/// declares no typed error: every failure is unrecoverable. Its field is
/// private and its invariant can hold of no value, so neither this module
/// nor any other can build one: verified code that holds one is unreachable.
#[derive(Debug)]
pub struct Unrecoverable {
    never: (),
}

impl Unrecoverable {
    #[verifier::type_invariant]
    spec fn uninhabited(&self) -> bool {
        false
    }
}

/// An exception that is either recoverable (a typed value `E` the caller
/// branches on) or unrecoverable (an opaque report).
#[derive(Debug)]
pub enum Exception<E = Unrecoverable> {
    Unrecoverable(eyre::Report),
    Recoverable(E),
}

/// Relies on `eyre::Report::msg`: builds a report that displays `message`.
/// The report also captures a backtrace, so nothing is stated of it.
#[verifier::external_body]
fn report_msg(message: &'static str) -> (r: eyre::Report) {
    eyre::Report::msg(message)
}

impl Exception<Unrecoverable> {
    /// The report of an exception that declares no recoverable error: such
    /// an exception is always unrecoverable.
    pub fn into_unrecoverable(self) -> (r: eyre::Report)
        ensures
            self == Exception::<Unrecoverable>::Unrecoverable(r),
    {
        match self {
            Exception::Unrecoverable(e) => e,
            Exception::Recoverable(u) => {
                proof {
                    use_type_invariant(&u);
                }
                unreached()
            },
        }
    }
}

impl<E> Exception<E> {
    /// Wraps a typed error as a recoverable exception.
    pub fn new_recoverable(e: E) -> (r: Self)
        ensures
            r == Exception::<E>::Recoverable(e),
    {
        Exception::Recoverable(e)
    }

    /// Wraps anything convertible into a report as an unrecoverable exception.
    pub fn new_unrecoverable<R: Into<eyre::Report>>(e: R) -> (r: Self)
        ensures
            r is Unrecoverable,
            call_ensures(R::into, (e,), r->Unrecoverable_0),
    {
        Exception::Unrecoverable(e.into())
    }

    pub fn is_recoverable(&self) -> (r: bool)
        ensures
            r == self is Recoverable,
    {
        matches!(self, Exception::Recoverable(_))
    }

    /// The recoverable error, or a report saying that this is not one.
    pub fn try_as_recoverable(&self) -> (r: eyre::Result<&E>)
        ensures
            r is Ok <==> self is Recoverable,
            r is Ok ==> *r->Ok_0 == self->Recoverable_0,
    {
        match self {
            Exception::Recoverable(e) => Ok(e),
            _ => Err(report_msg("Not a specific error")),
        }
    }

    /// The recoverable error, mutably, or a report saying that this is not
    /// one. A change made through the reference keeps the variant.
    pub fn try_as_recoverable_mut(&mut self) -> (r: eyre::Result<&mut E>)
        ensures
            r is Ok <==> *old(self) is Recoverable,
            r is Ok ==> *r->Ok_0 == (*old(self))->Recoverable_0,
            r is Ok ==> *final(self) == Exception::<E>::Recoverable(*final(r->Ok_0)),
            r is Err ==> *final(self) == *old(self),
    {
        match self {
            Exception::Recoverable(e) => Ok(e),
            _ => Err(report_msg("Not a specific error")),
        }
    }

    /// The recoverable error by value; otherwise the exception, unchanged.
    pub fn try_into_recoverable(self) -> (r: Result<E, Self>)
        ensures
            match self {
                Exception::Recoverable(e) => r == Ok::<E, Self>(e),
                Exception::Unrecoverable(_) => r == Err::<E, Self>(self),
            },
    {
        match self {
            Exception::Recoverable(e) => Ok(e),
            e => Err(e),
        }
    }

    /// The report, or a report saying that this is not an unrecoverable
    /// exception.
    pub fn try_as_unrecoverable(&self) -> (r: eyre::Result<&eyre::Report>)
        ensures
            r is Ok <==> self is Unrecoverable,
            r is Ok ==> *r->Ok_0 == self->Unrecoverable_0,
    {
        match self {
            Exception::Unrecoverable(e) => Ok(e),
            _ => Err(report_msg("Not a generic error")),
        }
    }

    /// The report, mutably, or a report saying that this is not an
    /// unrecoverable exception. A change made through the reference keeps
    /// the variant.
    pub fn try_as_unrecoverable_mut(&mut self) -> (r: eyre::Result<&mut eyre::Report>)
        ensures
            r is Ok <==> *old(self) is Unrecoverable,
            r is Ok ==> *r->Ok_0 == (*old(self))->Unrecoverable_0,
            r is Ok ==> *final(self) == Exception::<E>::Unrecoverable(*final(r->Ok_0)),
            r is Err ==> *final(self) == *old(self),
    {
        match self {
            Exception::Unrecoverable(e) => Ok(e),
            _ => Err(report_msg("Not a generic error")),
        }
    }

    /// The report by value; otherwise the exception, unchanged.
    pub fn try_into_unrecoverable(self) -> (r: Result<eyre::Report, Self>)
        ensures
            match self {
                Exception::Unrecoverable(e) => r == Ok::<eyre::Report, Self>(e),
                Exception::Recoverable(_) => r == Err::<eyre::Report, Self>(self),
            },
    {
        match self {
            Exception::Unrecoverable(e) => Ok(e),
            e => Err(e),
        }
    }

    /// Splits the exception into `(report, error)`, exactly one of them
    /// present.
    pub fn split(self) -> (r: (Option<eyre::Report>, Option<E>))
        ensures
            match self {
                Exception::Unrecoverable(e) => r == (Some(e), None::<E>),
                Exception::Recoverable(e) => r == (None::<eyre::Report>, Some(e)),
            },
    {
        match self {
            Exception::Unrecoverable(e) => (Some(e), None),
            Exception::Recoverable(e) => (None, Some(e)),
        }
    }

    /// Applies `f` to the recoverable error; a report passes through.
    pub fn map<F, T>(self, f: F) -> (r: Exception<T>)
        where
            F: FnOnce(E) -> T,
        requires
            self is Recoverable ==> f.requires((self->Recoverable_0,)),
        ensures
            match self {
                Exception::Unrecoverable(e) => r == Exception::<T>::Unrecoverable(e),
                Exception::Recoverable(e) => r is Recoverable && f.ensures((e,), r->Recoverable_0),
            },
    {
        match self {
            Exception::Unrecoverable(e) => Exception::Unrecoverable(e),
            Exception::Recoverable(e) => Exception::Recoverable(f(e)),
        }
    }

    /// Converts the recoverable error with `Into`; a report passes through.
    pub fn map_into<T>(self) -> (r: Exception<T>)
        where
            E: Into<T>,
        ensures
            match self {
                Exception::Unrecoverable(e) => r == Exception::<T>::Unrecoverable(e),
                Exception::Recoverable(e) => r is Recoverable && call_ensures(E::into, (e,), r->Recoverable_0),
            },
    {
        match self {
            Exception::Unrecoverable(e) => Exception::Unrecoverable(e),
            Exception::Recoverable(e) => Exception::Recoverable(e.into()),
        }
    }
}

/// Marks an error type as recoverable: a value of it converts into an
/// [`Exception`] as its `Recoverable` variant, through `?` or `Into`.
///
/// An error type opts in by implementing this trait. [`Exception`] itself and
/// [`Unrecoverable`] never do: an exception is not re-wrapped as a fresh
/// recoverable error, and no value of [`Unrecoverable`] exists to classify.
pub trait RecoverableError {
}

impl RecoverableError for String {
}

impl<T, E> From<T> for Exception<E> where
    T: RecoverableError + Into<E>,
 {
    /// A recoverable error becomes the `Recoverable` variant, converted. What
    /// callers learn of the result is stated by `from_spec` below.
    fn from(error: T) -> (r: Self)
    {
        Exception::Recoverable(error.into())
    }
}

impl<T, E> vstd::std_specs::convert::FromSpecImpl<T> for Exception<E> where
    T: RecoverableError + Into<E>,
 {
    open spec fn obeys_from_spec() -> bool {
        <T as vstd::std_specs::convert::IntoSpec<E>>::obeys_into_spec()
    }

    open spec fn from_spec(v: T) -> Exception<E> {
        Exception::Recoverable(<T as vstd::std_specs::convert::IntoSpec<E>>::into_spec(v))
    }
}

impl<E> From<Exception> for Exception<E> where
    E: RecoverableError,
 {
    /// An exception that declares no recoverable error is unrecoverable, and
    /// its report passes through unchanged.
    fn from(error: Exception) -> (r: Self)
        ensures
            error is Unrecoverable,
            r == Exception::<E>::Unrecoverable(error->Unrecoverable_0),
    {
        match error {
            Exception::Unrecoverable(e) => Exception::Unrecoverable(e),
            Exception::Recoverable(u) => {
                proof {
                    use_type_invariant(&u);
                }
                unreached()
            },
        }
    }
}

impl<E> vstd::std_specs::convert::FromSpecImpl<Exception> for Exception<E> where
    E: RecoverableError,
 {
    open spec fn obeys_from_spec() -> bool {
        true
    }

    open spec fn from_spec(v: Exception) -> Exception<E> {
        Exception::Unrecoverable(v->Unrecoverable_0)
    }
}

impl<E> From<eyre::Report> for Exception<E> {
    /// A report becomes the `Unrecoverable` variant, whatever `E` is.
    fn from(error: eyre::Report) -> (r: Self)
        ensures
            r == Exception::<E>::Unrecoverable(error),
    {
        Exception::Unrecoverable(error)
    }
}

impl<E> vstd::std_specs::convert::FromSpecImpl<eyre::Report> for Exception<E> {
    open spec fn obeys_from_spec() -> bool {
        true
    }

    open spec fn from_spec(v: eyre::Report) -> Exception<E> {
        Exception::Unrecoverable(v)
    }
}

/// A result whose error is an [`Exception`]; by default one that declares no
/// recoverable error.
pub type ExceptionResult<T, E = Unrecoverable> = Result<T, Exception<E>>;

/// Combinators on a result whose error is an [`Exception`].
pub trait ExceptionResultExt<T, E>: Sized {
    /// Applies `f` to a recoverable error; success and reports pass through.
    fn map_exception<F, E2>(self, f: F) -> ExceptionResult<T, E2> where
        F: FnOnce(E) -> E2,
        requires
            forall|e: E| f.requires((e,)),
    ;

    /// Converts a recoverable error with `Into`; success and reports pass
    /// through.
    fn map_exception_into<E2>(self) -> ExceptionResult<T, E2> where E: Into<E2>;

    /// Splits into success, typed failure (`Ok(Err(e))`) and opaque failure
    /// (`Err(report)`), so that reports propagate with `?`.
    fn split(self) -> eyre::Result<Result<T, E>>;
}

impl<T, E> ExceptionResultExt<T, E> for ExceptionResult<T, E> {
    fn map_exception<F, E2>(self, f: F) -> (r: ExceptionResult<T, E2>) where
        F: FnOnce(E) -> E2,
        ensures
            match self {
                Ok(t) => r == Ok::<T, Exception<E2>>(t),
                Err(Exception::Unrecoverable(e)) => r == Err::<T, Exception<E2>>(
                    Exception::Unrecoverable(e),
                ),
                Err(Exception::Recoverable(e)) => r is Err && r->Err_0 is Recoverable && f.ensures(
                    (e,),
                    r->Err_0->Recoverable_0,
                ),
            },
    {
        match self {
            Ok(t) => Ok(t),
            Err(e) => Err(e.map(f)),
        }
    }

    fn map_exception_into<E2>(self) -> (r: ExceptionResult<T, E2>) where E: Into<E2>
        ensures
            match self {
                Ok(t) => r == Ok::<T, Exception<E2>>(t),
                Err(Exception::Unrecoverable(e)) => r == Err::<T, Exception<E2>>(
                    Exception::Unrecoverable(e),
                ),
                Err(Exception::Recoverable(e)) => r is Err && r->Err_0 is Recoverable
                    && call_ensures(E::into, (e,), r->Err_0->Recoverable_0),
            },
    {
        match self {
            Ok(t) => Ok(t),
            Err(e) => Err(e.map_into()),
        }
    }

    fn split(self) -> (r: eyre::Result<Result<T, E>>)
        ensures
            match self {
                Ok(t) => r == Ok::<Result<T, E>, eyre::Report>(Ok(t)),
                Err(Exception::Recoverable(e)) => r == Ok::<Result<T, E>, eyre::Report>(Err(e)),
                Err(Exception::Unrecoverable(e)) => r == Err::<Result<T, E>, eyre::Report>(e),
            },
    {
        match self {
            Ok(t) => Ok(Ok(t)),
            Err(e) => match e {
                Exception::Unrecoverable(e) => Err(e),
                Exception::Recoverable(e) => Ok(Err(e)),
            },
        }
    }
}

/// Combinators on a result whose exception declares no recoverable error.
pub trait UnrecoverableExceptionResultExt<T>: Sized {
    /// The same result with the report as its error.
    fn into_unrecoverable(self) -> eyre::Result<T>;
}

impl<T> UnrecoverableExceptionResultExt<T> for ExceptionResult<T> {
    fn into_unrecoverable(self) -> (r: eyre::Result<T>)
        ensures
            match self {
                Ok(t) => r == Ok::<T, eyre::Report>(t),
                Err(e) => e is Unrecoverable && r == Err::<T, eyre::Report>(e->Unrecoverable_0),
            },
    {
        match self {
            Ok(val) => Ok(val),
            Err(e) => Err(e.into_unrecoverable()),
        }
    }
}

/// Explicit classification of the error of a plain result.
pub trait ResultExt<T, E>: Sized {
    /// Every failure becomes a recoverable exception.
    fn recoverable(self) -> ExceptionResult<T, E>;

    /// Every failure becomes an unrecoverable exception, through its report.
    fn unrecoverable(self) -> ExceptionResult<T> where E: Into<eyre::Report>;
}

impl<T, E> ResultExt<T, E> for Result<T, E> {
    fn recoverable(self) -> (r: ExceptionResult<T, E>)
        ensures
            match self {
                Ok(t) => r == Ok::<T, Exception<E>>(t),
                Err(e) => r == Err::<T, Exception<E>>(Exception::Recoverable(e)),
            },
    {
        match self {
            Ok(t) => Ok(t),
            Err(e) => Err(Exception::Recoverable(e)),
        }
    }

    fn unrecoverable(self) -> (r: ExceptionResult<T>) where E: Into<eyre::Report>
        ensures
            match self {
                Ok(t) => r == Ok::<T, Exception>(t),
                Err(e) => r is Err && r->Err_0 is Unrecoverable
                    && call_ensures(E::into, (e,), r->Err_0->Unrecoverable_0),
            },
    {
        match self {
            Ok(t) => Ok(t),
            Err(e) => Err(Exception::Unrecoverable(e.into())),
        }
    }
}

/// Collapses a result over a recoverable error type: a real error type keeps
/// the result as it is, while [`Unrecoverable`], which has no values, yields
/// the success value itself. The success type `T` is a parameter of the trait.
pub trait Finalize<T>: Sized {
    type Output;

    fn finalize(res: Result<T, Self>) -> Self::Output;
}

impl<T, E: RecoverableError> Finalize<T> for E {
    type Output = Result<T, E>;

    fn finalize(res: Result<T, E>) -> (r: Result<T, E>)
        ensures
            r == res,
    {
        res
    }
}

impl<T> Finalize<T> for Unrecoverable {
    type Output = T;

    fn finalize(res: Result<T, Unrecoverable>) -> (r: T)
        ensures
            res is Ok,
            r == res->Ok_0,
    {
        match res {
            Ok(t) => t,
            Err(u) => {
                proof {
                    use_type_invariant(&u);
                }
                unreached()
            },
        }
    }
}

/// Converting a recoverable error into an exception gives the `Recoverable`
/// variant, and taking the error back out returns the converted value; this
/// holds wherever the conversion into `E` follows its specification.
pub proof fn lemma_recoverable_round_trip<T, E>(
    e: T,
    x: Exception<E>,
    back: Result<E, Exception<E>>,
)
    where
        T: RecoverableError + Into<E>,
    requires
        call_ensures(<Exception<E> as From<T>>::from, (e,), x),
        call_ensures(Exception::<E>::try_into_recoverable, (x,), back),
    ensures
        <T as vstd::std_specs::convert::IntoSpec<E>>::obeys_into_spec() ==> {
            let v = <T as vstd::std_specs::convert::IntoSpec<E>>::into_spec(e);
            &&& x == Exception::<E>::Recoverable(v)
            &&& back == Ok::<E, Exception<E>>(v)
        },
{
}

/// Converting a report into an exception gives the `Unrecoverable` variant,
/// whatever the recoverable type, and splitting it hands the same report back
/// with no recoverable error.
pub proof fn lemma_report_split<E>(
    rep: eyre::Report,
    x: Exception<E>,
    parts: (Option<eyre::Report>, Option<E>),
)
    requires
        call_ensures(<Exception<E> as From<eyre::Report>>::from, (rep,), x),
        call_ensures(Exception::<E>::split, (x,), parts),
    ensures
        x is Unrecoverable,
        parts == (Some(rep), None::<E>),
{
}

} // verus!
