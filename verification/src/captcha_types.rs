use vstd::prelude::*;
use crate::form::pairs_view;
use crate::solution::CaptchaSolution;

pub mod solution;
pub mod task;
pub mod type_state;

verus! {

/// The capability through which a captcha kind plugs into the engine: the
/// tag under which the service knows it, the body of its submission, the wait
/// before its first poll, and the shape of its answer.
pub trait CaptchaTask {
    /// The shape in which the answer to this kind of captcha arrives.
    type Solution: CaptchaSolution;

    /// The tag that names the kind on the wire.
    spec fn type_tag(&self) -> Seq<char>;

    /// Seconds that the service is known to need at least.
    spec fn timeout_secs(&self) -> u64;

    /// The tag that names the kind on the wire.
    fn get_type(&self) -> (r: String)
        ensures
            r@ == self.type_tag(),
    ;

    /// The fields of the submission, in the order in which they are sent.
    /// A field without a value is left out.
    spec fn body_fields(&self, api_key: Seq<char>) -> Seq<(Seq<char>, Seq<char>)>;

    /// Lists the fields of the submission.
    fn to_fields(&self, api_key: String) -> (r: Vec<(String, String)>)
        ensures
            pairs_view(r@) == self.body_fields(api_key@),
    ;

    /// Seconds to wait after the submission before the first poll.
    fn get_timeout(&self) -> (r: u64)
        ensures
            r == self.timeout_secs(),
    ;
}

} // verus!
