use vstd::prelude::*;

verus! {

/// The text that `s` gives when every character is mapped to upper case.
pub uninterp spec fn upper_of(s: Seq<char>) -> Seq<char>;

/// Relies on `str::to_uppercase`: the result depends on the characters of
/// `s` alone.
#[verifier::external_body]
fn to_upper(s: &str) -> (r: String)
    ensures
        r@ == upper_of(s@),
{
    s.to_uppercase()
}

/// Names the environment variables that configure one application, for the
/// configuration type `Config`.
///
/// The variables are those whose names start with [`EnvHandler::prefix`]
/// followed by an underscore.
#[derive(Debug)]
pub struct EnvHandler<Config> {
    /// The name of the application.
    pub app_name: String,
    _phantom_config: core::marker::PhantomData<Config>,
}

impl<Config> EnvHandler<Config> {
    /// The handler's application name.
    pub closed spec fn name(&self) -> Seq<char> {
        self.app_name@
    }

    /// Creates a handler for the application `app_name`.
    pub fn new(app_name: &str) -> (r: Self)
        ensures
            r.name() == app_name@,
    {
        EnvHandler { app_name: app_name.to_string(), _phantom_config: core::marker::PhantomData }
    }

    /// The prefix of the variables' names: the application name in upper case.
    pub fn prefix(&self) -> (r: String)
        ensures
            r@ == upper_of(self.name()),
    {
        to_upper(self.app_name.as_str())
    }
}

} // verus!
