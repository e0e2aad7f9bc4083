use vstd::prelude::*;

verus! {

/// The capability of being an error: a value that can describe itself.
pub trait Describe {
    /// What the value says of itself.
    spec fn described(&self) -> Seq<char>;

    fn description(&self) -> (r: String)
        ensures
            r@ == self.described(),
    ;
}

/// An error of any type, reduced to the one thing every error offers: its description.
#[derive(Debug)]
pub struct Cause {
    text: String,
}

impl View for Cause {
    type V = Seq<char>;

    closed spec fn view(&self) -> Seq<char> {
        self.text@
    }
}

impl Cause {
    /// Takes ownership of `err` and keeps what it says of itself.
    pub fn of<E: Describe>(err: E) -> (c: Cause)
        ensures
            c@ == err.described(),
    {
        Cause { text: err.description() }
    }
}

impl Describe for Cause {
    open spec fn described(&self) -> Seq<char> {
        self@
    }

    fn description(&self) -> (r: String) {
        self.text.clone()
    }
}

/// The one failure vocabulary shared by every fallible operation.
#[derive(Debug)]
pub enum Error {
    /// The caller supplied invalid input.
    Invalid,
    /// A required network resource could not be reached.
    NetworkUnavailable,
    /// The configuration value under `env_var` is not a well-formed URL.
    MalformedEnvUrl { env_var: &'static str, source: Cause },
    /// The operation is known but not available here.
    Unsupported,
    /// Any failure not classified above, with its cause kept.
    Unknown(Cause),
}

pub type Result<T> = std::result::Result<T, Error>;

impl Error {
    /// The configuration key that a variant names, if it names one.
    pub open spec fn env_var_of(self) -> Option<Seq<char>> {
        match self {
            Error::MalformedEnvUrl { env_var, .. } => Some(env_var@),
            _ => None,
        }
    }

    /// The description of the cause that a variant keeps, if it keeps one.
    pub open spec fn cause_of(self) -> Option<Seq<char>> {
        match self {
            Error::MalformedEnvUrl { source, .. } => Some(source@),
            Error::Unknown(c) => Some(c@),
            _ => None,
        }
    }

    /// `MalformedEnvUrl` for the key `env_var`, failed because of `cause`.
    pub fn malformed_env_url<E: Describe>(env_var: &'static str, cause: E) -> (r: Error)
        ensures
            r matches Error::MalformedEnvUrl { env_var: k, source: c } && k == env_var && c@
                == cause.described(),
    {
        Error::MalformedEnvUrl { env_var, source: Cause::of(cause) }
    }

    /// The configuration key of `MalformedEnvUrl`.
    pub fn env_var(&self) -> (r: Option<&'static str>)
        ensures
            r matches Some(k) ==> self.env_var_of() == Some(k@),
            r is None <==> self.env_var_of() is None,
    {
        match self {
            Error::MalformedEnvUrl { env_var, .. } => Some(*env_var),
            _ => None,
        }
    }

    /// The cause kept by `MalformedEnvUrl` and `Unknown`.
    pub fn cause(&self) -> (r: Option<&Cause>)
        ensures
            r matches Some(c) ==> self.cause_of() == Some(c@),
            r is None <==> self.cause_of() is None,
    {
        match self {
            Error::MalformedEnvUrl { source, .. } => Some(source),
            Error::Unknown(c) => Some(c),
            _ => None,
        }
    }
}

/// A `MalformedEnvUrl` built of a key and a cause gives both back: the key as the
/// configuration key it names, and the cause's description as the cause it keeps.
pub proof fn malformed_env_url_keeps_key_and_cause(env_var: &'static str, source: Cause)
    ensures
        (Error::MalformedEnvUrl { env_var, source }).env_var_of() == Some(env_var@),
        (Error::MalformedEnvUrl { env_var, source }).cause_of() == Some(source@),
{
}

/// Any error becomes `Unknown`, keeping its description.
impl<E: Describe> From<E> for Error {
    fn from(err: E) -> (r: Error)
        ensures
            r matches Error::Unknown(c) && c@ == err.described(),
    {
        Error::Unknown(Cause::of(err))
    }
}

/// The result of the conversion is stated by the `ensures` of `from`: a `Cause` is known
/// by its description, which does not fix it as a value.
impl<E: Describe> vstd::std_specs::convert::FromSpecImpl<E> for Error {
    open spec fn obeys_from_spec() -> bool {
        false
    }

    open spec fn from_spec(v: E) -> Error {
        arbitrary()
    }
}

/// Hands on the outcome of an inner call: its value, or its error exactly as it came.
pub fn propagate<T>(inner: Result<T>) -> (r: Result<T>)
    ensures
        r == inner,
{
    let v = inner?;
    Ok(v)
}

/// Turns the failure of a call from another vocabulary into `Unknown`.
pub fn absorb<T, E: Describe>(inner: std::result::Result<T, E>) -> (r: Result<T>)
    ensures
        inner matches Ok(v) ==> r == Ok::<T, Error>(v),
        inner matches Err(e) ==> (r matches Err(Error::Unknown(c)) && c@ == e.described()),
{
    match inner {
        Ok(v) => Ok(v),
        Err(e) => Err(Error::from(e)),
    }
}

} // verus!
