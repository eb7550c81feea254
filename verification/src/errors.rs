//! The errors a request can end in, and the step that classifies a decoded
//! response.

use crate::endpoints::cards::Card;
use crate::endpoints::series::Serie;
use crate::endpoints::sets::CardSet;
use crate::is_empty::IsEmpty;
use crate::query::Response;
use vstd::prelude::*;

verus! {

/// `reqwest::Error`, the error of the HTTP client: a request that could not
/// be built or sent, or a body that could not be read or decoded. Nothing
/// inside it is looked at here; it is carried to the caller as it came.
#[verifier::external_type_specification]
#[verifier::external_body]
pub struct ExReqwestError(reqwest::Error);

/// Error returned by the server in some cases of bad request.
///
/// The server reports an error as a problem object with the fields below;
/// this is the one shape of error that is understood.
#[derive(Debug)]
pub struct TcgdexError {
    /// A URL that identifies the problem type.
    pub _type: String,
    /// Summary of the problem.
    pub title: String,
    /// The HTTP status code.
    pub status: u16,
    /// Query that caused the problem.
    pub endpoint: String,
    /// Method used for the query.
    pub method: String,
    /// Lang used.
    pub lang: String,
    /// Details about the problem.
    pub details: String,
}

impl TcgdexError {
    /// Whether two errors agree in every field.
    pub open spec fn same(&self, other: &TcgdexError) -> bool {
        &&& self._type@ == other._type@
        &&& self.title@ == other.title@
        &&& self.status == other.status
        &&& self.endpoint@ == other.endpoint@
        &&& self.method@ == other.method@
        &&& self.lang@ == other.lang@
        &&& self.details@ == other.details@
    }
}

impl PartialEq for TcgdexError {
    fn eq(&self, other: &TcgdexError) -> (r: bool) {
        self._type == other._type && self.title == other.title && self.status == other.status
            && self.endpoint == other.endpoint && self.method == other.method && self.lang
            == other.lang && self.details == other.details
    }
}

impl vstd::std_specs::cmp::PartialEqSpecImpl for TcgdexError {
    open spec fn obeys_eq_spec() -> bool {
        true
    }

    open spec fn eq_spec(&self, other: &TcgdexError) -> bool {
        self.same(other)
    }
}

impl Eq for TcgdexError {

}

/// The errors that may occur.
#[derive(Debug)]
pub enum ApiError {
    /// The request failed in the HTTP client.
    Reqwest(reqwest::Error),
    /// The server answered with an error of its own.
    TcgdexApi(TcgdexError),
    /// The server answered with a payload that carries nothing.
    EmptyResponse,
}

/// Calls the `Display` impl of `reqwest::Error` and returns the text that it
/// writes. Nothing is claimed of the text.
#[verifier::external_body]
fn transport_text(error: &reqwest::Error) -> (text: String) {
    error.to_string()
}

impl ApiError {
    /// Returns true if the error is from the HTTP client.
    #[must_use]
    pub fn is_reqwest(&self) -> (b: bool)
        ensures
            b == (self is Reqwest),
    {
        match self {
            ApiError::Reqwest(_) => true,
            _ => false,
        }
    }

    /// Returns true if the error was reported by the server.
    #[must_use]
    pub fn is_tcgdexapi(&self) -> (b: bool)
        ensures
            b == (self is TcgdexApi),
    {
        match self {
            ApiError::TcgdexApi(_) => true,
            _ => false,
        }
    }

    /// Returns true if the error stands for an empty response.
    #[must_use]
    pub fn is_empty_response(&self) -> (b: bool)
        ensures
            b == (self is EmptyResponse),
    {
        match self {
            ApiError::EmptyResponse => true,
            _ => false,
        }
    }

    /// Returns the error that the server reported, or `None` if the error has
    /// another origin.
    #[must_use]
    pub fn get_tcgdex_error(self) -> (r: Option<TcgdexError>)
        ensures
            r == match self {
                ApiError::TcgdexApi(error) => Some(error),
                _ => None::<TcgdexError>,
            },
    {
        match self {
            ApiError::TcgdexApi(error) => Some(error),
            _ => None,
        }
    }

    /// The one-line description of the error, where `transport` is the text
    /// that the HTTP client has for an error of its own: a fixed text for an
    /// empty response, and otherwise a prefix that names the origin, with the
    /// title or `transport` behind it.
    pub open spec fn description(&self, transport: Seq<char>) -> Seq<char> {
        match self {
            ApiError::Reqwest(_) => "Reqwest error : "@ + transport,
            ApiError::TcgdexApi(error) => "Tcgdex error : "@ + error.title@,
            ApiError::EmptyResponse => "Response is empty"@,
        }
    }

    /// Describes the error in one line, with `transport` as the text for an
    /// error of the HTTP client.
    pub fn describe(&self, transport: &str) -> (s: String)
        ensures
            s@ == self.description(transport@),
    {
        match self {
            ApiError::Reqwest(_) => {
                let mut s = String::from_str("Reqwest error : ");
                s.append(transport);
                s
            },
            ApiError::TcgdexApi(error) => {
                let mut s = String::from_str("Tcgdex error : ");
                s.append(error.title.as_str());
                s
            },
            ApiError::EmptyResponse => String::from_str("Response is empty"),
        }
    }

    /// Describes the error in one line. For an error of the HTTP client the
    /// line ends in whatever text the client has for it.
    pub fn to_string(&self) -> (s: String)
        ensures
            exists|transport: Seq<char>| s@ == #[trigger] self.description(transport),
            !(self is Reqwest) ==> s@ == self.description(Seq::empty()),
    {
        match self {
            ApiError::Reqwest(error) => {
                let text = transport_text(error);
                self.describe(text.as_str())
            },
            _ => {
                let s = self.describe("");
                assert(""@ =~= Seq::<char>::empty()) by {
                    reveal_strlit("");
                }
                s
            },
        }
    }
}

impl PartialEq for ApiError {
    fn eq(&self, other: &ApiError) -> (r: bool) {
        match (self, other) {
            (ApiError::TcgdexApi(a), ApiError::TcgdexApi(b)) => a == b,
            (ApiError::EmptyResponse, ApiError::EmptyResponse) => true,
            _ => false,
        }
    }
}

impl vstd::std_specs::cmp::PartialEqSpecImpl for ApiError {
    open spec fn obeys_eq_spec() -> bool {
        true
    }

    /// Errors of the server are equal when their fields agree, two empty
    /// responses are equal, and an error of the HTTP client equals nothing.
    open spec fn eq_spec(&self, other: &ApiError) -> bool {
        match (self, other) {
            (ApiError::TcgdexApi(a), ApiError::TcgdexApi(b)) => a.same(b),
            (ApiError::EmptyResponse, ApiError::EmptyResponse) => true,
            _ => false,
        }
    }
}

impl From<reqwest::Error> for ApiError {
    fn from(error: reqwest::Error) -> (r: ApiError) {
        ApiError::Reqwest(error)
    }
}

impl vstd::std_specs::convert::FromSpecImpl<reqwest::Error> for ApiError {
    open spec fn obeys_from_spec() -> bool {
        true
    }

    open spec fn from_spec(error: reqwest::Error) -> ApiError {
        ApiError::Reqwest(error)
    }
}

/// What a decoded response comes to: the error the server reported, an empty
/// result where the payload carries nothing, and the payload otherwise.
pub open spec fn resolve<T: IsEmpty>(response: Response<T>) -> Result<T, ApiError> {
    match response {
        Response::Error(error) => Err(ApiError::TcgdexApi(error)),
        Response::Data(payload) => if payload.is_empty_spec() {
            Err(ApiError::EmptyResponse)
        } else {
            Ok(payload)
        },
    }
}

/// Classifies a decoded response as a payload or as one of the two errors
/// that a response can stand for.
pub fn set_error<T: IsEmpty>(response: Response<T>) -> (r: Result<T, ApiError>)
    ensures
        r == resolve(response),
{
    match response {
        Response::Data(payload) => {
            if payload.is_empty() {
                Err(ApiError::EmptyResponse)
            } else {
                Ok(payload)
            }
        },
        Response::Error(error) => Err(ApiError::TcgdexApi(error)),
    }
}

/// An error that the server reported comes out as it went in: as the error
/// of the result, with every field unchanged.
pub proof fn lemma_reported_error_round_trips<T: IsEmpty>(error: TcgdexError)
    ensures
        resolve(Response::<T>::Error(error)) == Err::<T, ApiError>(ApiError::TcgdexApi(error)),
{
}

/// A payload that carries nothing is an empty result and never a success;
/// any other payload is handed on unchanged.
pub proof fn lemma_payload_resolves_by_emptiness<T: IsEmpty>(payload: T)
    ensures
        payload.is_empty_spec() ==> resolve(Response::Data(payload)) == Err::<T, ApiError>(
            ApiError::EmptyResponse,
        ),
        !payload.is_empty_spec() ==> resolve(Response::Data(payload)) == Ok::<T, ApiError>(
            payload,
        ),
{
}

/// A card, a set or a serie without id and name is an empty result, whatever
/// its other fields hold.
pub proof fn lemma_nameless_record_is_empty_result(card: Card, set: CardSet, serie: Serie)
    ensures
        card.id@.len() == 0 && card.name@.len() == 0 ==> resolve(Response::Data(card)) == Err::<
            Card,
            ApiError,
        >(ApiError::EmptyResponse),
        set.id@.len() == 0 && set.name@.len() == 0 ==> resolve(Response::Data(set)) == Err::<
            CardSet,
            ApiError,
        >(ApiError::EmptyResponse),
        serie.id@.len() == 0 && serie.name@.len() == 0 ==> resolve(Response::Data(serie)) == Err::<
            Serie,
            ApiError,
        >(ApiError::EmptyResponse),
{
}

} // verus!
