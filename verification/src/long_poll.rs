//! The long-poll endpoint for the background asset.
//!
//! A client asks for the asset unless it already has version `since`, and
//! may ask to wait for a newer one. [`background_latest`] decides one pass:
//! answer now, or wait for the store's wakeup signal. The caller waits, up to
//! [`LONG_POLL_TIMEOUT_SECS`], and either asks again or answers with
//! [`poll_timed_out`].

use vstd::prelude::*;
use vstd::string::StringExecFns;
use crate::asset_store::{payload_of, BackgroundAsset, BackgroundState, VersionedAsset};
use crate::http::{
    header_value_accepts, header_value_allowed, lemma_decimal_allowed,
    lemma_printable_ascii_allowed, StatusCode,
};
use crate::text::{decimal_digits, decimal_string};

verus! {

/// The longest a request is kept waiting, in seconds.
pub const LONG_POLL_TIMEOUT_SECS: u64 = 25;

/// The query of a long-poll request.
#[derive(Debug, Default, PartialEq, Eq)]
pub struct BackgroundLatestQuery {
    pub since: Option<u64>,
    pub wait: Option<bool>,
}

impl BackgroundLatestQuery {
    /// The version the client already has; zero where it names none.
    pub open spec fn since_version(&self) -> u64 {
        match self.since {
            Some(since) => since,
            None => 0,
        }
    }

    /// Whether the client asks to wait; it does not where it says nothing.
    pub open spec fn wants_wait(&self) -> bool {
        match self.wait {
            Some(wait) => wait,
            None => false,
        }
    }
}

/// A response: status, headers in order, and body.
#[derive(Debug, PartialEq, Eq)]
pub struct AssetResponse {
    pub status: StatusCode,
    pub headers: Vec<(String, String)>,
    pub body: Vec<u8>,
}

/// A response as a mathematical value.
pub struct ResponseModel {
    pub status: StatusCode,
    pub headers: Seq<(Seq<char>, Seq<char>)>,
    pub body: Seq<u8>,
}

/// Header names and values as character sequences.
pub open spec fn header_pairs(headers: Seq<(String, String)>) -> Seq<(Seq<char>, Seq<char>)> {
    headers.map_values(|header: (String, String)| (header.0@, header.1@))
}

impl View for AssetResponse {
    type V = ResponseModel;

    open spec fn view(&self) -> ResponseModel {
        ResponseModel {
            status: self.status,
            headers: header_pairs(self.headers@),
            body: self.body@,
        }
    }
}

/// The headers of every response: the served version, the permission for
/// any origin to read the response, and the headers that a browser may see;
/// then the content type, where there is a body.
pub open spec fn response_headers(version: u64, content_type: Option<Seq<char>>) -> Seq<
    (Seq<char>, Seq<char>),
> {
    let fixed = seq![
        ("x-background-version"@, decimal_digits(version as nat)),
        ("access-control-allow-origin"@, "*"@),
        ("access-control-expose-headers"@, "x-background-version,content-type"@),
    ];
    match content_type {
        Some(mime) => fixed.push(("content-type"@, mime)),
        None => fixed,
    }
}

/// The response that carries `payload` as version `version`, or an internal
/// error where the payload's content type cannot be a header value.
pub open spec fn response_for(
    payload: Option<(Seq<u8>, Seq<char>)>,
    version: u64,
    status: StatusCode,
) -> Result<ResponseModel, StatusCode> {
    match payload {
        Some((bytes, mime)) => if header_value_allowed(mime) {
            Ok(
                ResponseModel {
                    status,
                    headers: response_headers(version, Some(mime)),
                    body: bytes,
                },
            )
        } else {
            Err(StatusCode::InternalServerError)
        },
        None => Ok(
            ResponseModel { status, headers: response_headers(version, None), body: Seq::empty() },
        ),
    }
}

/// The view of a built response.
pub open spec fn built_view(built: Result<AssetResponse, StatusCode>) -> Result<
    ResponseModel,
    StatusCode,
> {
    match built {
        Ok(response) => Ok(response@),
        Err(status) => Err(status),
    }
}

/// Builds a response with the given status that names `version` and carries
/// the asset, where there is one.
pub fn build_response(asset: Option<BackgroundAsset>, version: u64, status: StatusCode) -> (built:
    Result<AssetResponse, StatusCode>)
    ensures
        built_view(built) == response_for(payload_of(asset), version, status),
{
    let mut headers: Vec<(String, String)> = Vec::new();
    headers.push((String::from_str("x-background-version"), decimal_string(version)));
    headers.push((String::from_str("access-control-allow-origin"), String::from_str("*")));
    headers.push(
        (
            String::from_str("access-control-expose-headers"),
            String::from_str("x-background-version,content-type"),
        ),
    );
    assert(header_pairs(headers@) =~= response_headers(version, None));
    match asset {
        Some(asset) => {
            if !header_value_accepts(asset.mime.as_str()) {
                return Err(StatusCode::InternalServerError);
            }
            let BackgroundAsset { bytes, mime } = asset;
            headers.push((String::from_str("content-type"), mime));
            assert(header_pairs(headers@) =~= response_headers(version, Some(mime@)));
            Ok(AssetResponse { status, headers, body: bytes })
        },
        None => Ok(AssetResponse { status, headers, body: Vec::new() }),
    }
}

/// One pass of the long-poll loop: answer, or wait for a change of the
/// version that was seen.
#[derive(Debug, PartialEq, Eq)]
pub enum PollStep {
    Respond(Result<AssetResponse, StatusCode>),
    Wait { version: u64 },
}

/// One pass of the long-poll loop as a mathematical value.
pub enum PollModel {
    Respond(Result<ResponseModel, StatusCode>),
    Wait { version: u64 },
}

impl View for PollStep {
    type V = PollModel;

    open spec fn view(&self) -> PollModel {
        match self {
            PollStep::Respond(built) => PollModel::Respond(built_view(*built)),
            PollStep::Wait { version } => PollModel::Wait { version: *version },
        }
    }
}

/// What a request is answered with when its wait ran out: no content, and
/// the version that was seen before the wait.
pub open spec fn timed_out_response(version: u64) -> Result<ResponseModel, StatusCode> {
    response_for(None, version, StatusCode::NoContent)
}

/// The decision of one pass.
///
/// A store that never produced an asset gives no content, or a wait where
/// the client asked for one. A version other than the client's gives the
/// payload. The client's own version gives no content, or a wait where the
/// client asked for one.
pub open spec fn poll_decision(store: VersionedAsset, since: u64, wait: bool) -> PollModel {
    if store.version == 0 {
        if wait {
            PollModel::Wait { version: 0 }
        } else {
            PollModel::Respond(response_for(None, 0, StatusCode::NoContent))
        }
    } else if store.version != since {
        match store.payload {
            Some(payload) => PollModel::Respond(
                response_for(Some(payload), store.version, StatusCode::Success),
            ),
            None => PollModel::Respond(response_for(None, store.version, StatusCode::NoContent)),
        }
    } else if wait {
        PollModel::Wait { version: store.version }
    } else {
        PollModel::Respond(response_for(None, store.version, StatusCode::NoContent))
    }
}

/// Decides one pass of a long-poll request against the store as it is now.
pub fn background_latest(store: &BackgroundState, params: &BackgroundLatestQuery) -> (step:
    PollStep)
    ensures
        step@ == poll_decision(store@, params.since_version(), params.wants_wait()),
{
    let wait = match params.wait {
        Some(wait) => wait,
        None => false,
    };
    let since = match params.since {
        Some(since) => since,
        None => 0,
    };
    let (version, asset) = store.snapshot();
    if version == 0 {
        if wait {
            return PollStep::Wait { version };
        }
        return PollStep::Respond(build_response(None, version, StatusCode::NoContent));
    }
    if version != since {
        if asset.is_some() {
            return PollStep::Respond(build_response(asset, version, StatusCode::Success));
        } else {
            return PollStep::Respond(build_response(None, version, StatusCode::NoContent));
        }
    }
    if !wait {
        return PollStep::Respond(build_response(None, version, StatusCode::NoContent));
    }
    PollStep::Wait { version }
}

/// What follows a wait.
#[derive(Debug, PartialEq, Eq)]
pub enum AfterWait {
    /// The store signalled a change: look at it again.
    LookAgain,
    /// The wait ran out: answer with this.
    Respond(Result<AssetResponse, StatusCode>),
}

/// What follows a wait, as a mathematical value.
pub enum AfterWaitModel {
    LookAgain,
    Respond(Result<ResponseModel, StatusCode>),
}

impl View for AfterWait {
    type V = AfterWaitModel;

    open spec fn view(&self) -> AfterWaitModel {
        match self {
            AfterWait::LookAgain => AfterWaitModel::LookAgain,
            AfterWait::Respond(built) => AfterWaitModel::Respond(built_view(*built)),
        }
    }
}

/// The answer to a request whose wait ran out without a wakeup.
pub fn poll_timed_out(version: u64) -> (built: Result<AssetResponse, StatusCode>)
    ensures
        built_view(built) == timed_out_response(version),
{
    build_response(None, version, StatusCode::NoContent)
}

/// Decides what follows a wait on `version`. After a wakeup, for whatever
/// reason, the store is looked at again; after the ceiling the request is
/// answered with no content and the version that was seen, so that the
/// client can ask again at once.
pub fn wait_ended(woken: bool, version: u64) -> (next: AfterWait)
    ensures
        next@ == if woken {
            AfterWaitModel::LookAgain
        } else {
            AfterWaitModel::Respond(timed_out_response(version))
        },
{
    if woken {
        AfterWait::LookAgain
    } else {
        AfterWait::Respond(poll_timed_out(version))
    }
}

/// Every response that is built names the served version in its first
/// header, lets any origin read it and see the version with its next two,
/// and holds no header value that HTTP would refuse.
pub proof fn lemma_response_headers(
    payload: Option<(Seq<u8>, Seq<char>)>,
    version: u64,
    status: StatusCode,
)
    ensures
        response_for(payload, version, status) matches Ok(response) ==> {
            &&& response.headers[0] == ("x-background-version"@, decimal_digits(version as nat))
            &&& response.headers[1] == ("access-control-allow-origin"@, "*"@)
            &&& response.headers[2] == (
                "access-control-expose-headers"@,
                "x-background-version,content-type"@,
            )
            &&& forall|i: int|
                0 <= i < response.headers.len() ==> header_value_allowed(
                    (#[trigger] response.headers[i]).1,
                )
        },
{
    reveal_strlit("*");
    reveal_strlit("x-background-version,content-type");
    lemma_decimal_allowed(version as nat);
    lemma_printable_ascii_allowed("*"@);
    lemma_printable_ascii_allowed("x-background-version,content-type"@);
}

/// A request that does not ask to wait is answered at once, and with no
/// content where the client already has the current version.
pub proof fn lemma_without_wait_answers(store: VersionedAsset, since: u64)
    ensures
        poll_decision(store, since, false) is Respond,
        since == store.version ==> poll_decision(store, since, false) == PollModel::Respond(
            response_for(None, store.version, StatusCode::NoContent),
        ),
{
}

/// Once an asset was produced, a client whose version is not the current one
/// is answered at once, whether or not it asked to wait.
pub proof fn lemma_stale_client_answers(store: VersionedAsset, since: u64, wait: bool)
    requires
        store.version != 0,
        since != store.version,
    ensures
        poll_decision(store, since, wait) is Respond,
{
}

/// A client that waits on the current version is answered with the new
/// payload as soon as it looks again after a replacement, unless the
/// replacement wrapped the version around to zero.
pub proof fn lemma_replacement_releases_waiter(
    store: VersionedAsset,
    bytes: Seq<u8>,
    mime: Seq<char>,
    wait: bool,
)
    requires
        store.version < u64::MAX,
    ensures
        poll_decision(store.replaced(bytes, mime), store.version, wait) == PollModel::Respond(
            response_for(Some((bytes, mime)), (store.version + 1) as u64, StatusCode::Success),
        ),
{
}

/// A store that never produced an asset, asked without a wait, gives no
/// content and version zero.
pub proof fn lemma_unwritten_store_gives_no_content(since: u64)
    ensures
        poll_decision(VersionedAsset::initial(), since, false) == PollModel::Respond(
            response_for(None, 0, StatusCode::NoContent),
        ),
{
}

} // verus!
