//! One run, as a sequence of decisions: which request to send next, and when
//! the run is over.
//!
//! The driver sends the request of [`start`], then feeds each response to
//! [`step`] and does what the returned [`Action`] says, until it is no
//! longer a request.

use vstd::prelude::*;
use crate::dns::dns_address;
use crate::dns::dns_request;
use crate::dns::dns_missing_message;
use crate::dns::dns_parse_prefix;
use crate::dns::dns_request_model;
use crate::dns::get_dns_address;
use crate::error::ErrorKind;
use crate::error::SyncError;
use crate::provider::build_cf_api_client;
use crate::provider::list_request;
use crate::provider::list_parse_prefix;
use crate::provider::list_request_model;
use crate::provider::located;
use crate::provider::patch_request_model;
use crate::provider::read_update_response;
use crate::provider::record_missing_message;
use crate::provider::rejected_message;
use crate::provider::update_parse_prefix;
use crate::provider::update_result;
use crate::request::is_https;
use crate::request::HttpRequest;
use crate::request::RequestModel;
use crate::wan::get_wan_address;
use crate::wan::wan_address;
use crate::wan::wan_missing_message;
use crate::wan::wan_request;
use crate::wan::wan_request_model;
use crate::wan::WanFormat;

verus! {

/// What a run is configured with. A usable configuration has no empty field.
#[derive(Clone, Debug, PartialEq, Eq)]
pub struct Config {
    pub domain: String,
    pub zone_id: String,
    pub token: String,
}

/// A [`Config`], over sequences of characters.
pub struct ConfigModel {
    pub domain: Seq<char>,
    pub zone_id: Seq<char>,
    pub token: Seq<char>,
}

impl ConfigModel {
    /// Whether no field is empty.
    pub open spec fn valid(self) -> bool {
        self.domain.len() > 0 && self.zone_id.len() > 0 && self.token.len() > 0
    }
}

impl View for Config {
    type V = ConfigModel;

    open spec fn view(&self) -> ConfigModel {
        ConfigModel { domain: self.domain@, zone_id: self.zone_id@, token: self.token@ }
    }
}

impl Config {
    /// Builds a configuration; `None` where a field is empty.
    pub fn new(domain: &str, zone_id: &str, token: &str) -> (r: Option<Config>)
        ensures
            match r {
                Some(c) => c@ == (ConfigModel { domain: domain@, zone_id: zone_id@, token: token@ })
                    && c@.valid(),
                None => domain@.len() == 0 || zone_id@.len() == 0 || token@.len() == 0,
            },
    {
        if domain.is_empty() || zone_id.is_empty() || token.is_empty() {
            None
        } else {
            Some(
                Config {
                    domain: domain.to_owned(),
                    zone_id: zone_id.to_owned(),
                    token: token.to_owned(),
                },
            )
        }
    }
}

/// Where a run stands: which response it waits for, with the WAN address
/// once that is known.
#[derive(Clone, Debug, PartialEq, Eq)]
pub enum Stage {
    AwaitWan,
    AwaitDns { wan: String },
    AwaitRecords { wan: String },
    AwaitUpdate { wan: String },
    Done,
}

/// A [`Stage`], over sequences of characters.
pub enum StageModel {
    AwaitWan,
    AwaitDns { wan: Seq<char> },
    AwaitRecords { wan: Seq<char> },
    AwaitUpdate { wan: Seq<char> },
    Done,
}

impl View for Stage {
    type V = StageModel;

    open spec fn view(&self) -> StageModel {
        match self {
            Stage::AwaitWan => StageModel::AwaitWan,
            Stage::AwaitDns { wan } => StageModel::AwaitDns { wan: wan@ },
            Stage::AwaitRecords { wan } => StageModel::AwaitRecords { wan: wan@ },
            Stage::AwaitUpdate { wan } => StageModel::AwaitUpdate { wan: wan@ },
            Stage::Done => StageModel::Done,
        }
    }
}

/// What came of the request that the driver sent.
#[derive(Clone, Debug, PartialEq, Eq)]
pub enum Event {
    /// The response body, as text.
    Response(String),
    /// The request could not be sent or its response could not be read.
    TransportFailure(String),
}

/// An [`Event`], over sequences of characters.
pub enum EventModel {
    Response(Seq<char>),
    TransportFailure(Seq<char>),
}

impl View for Event {
    type V = EventModel;

    open spec fn view(&self) -> EventModel {
        match self {
            Event::Response(body) => EventModel::Response(body@),
            Event::TransportFailure(message) => EventModel::TransportFailure(message@),
        }
    }
}

/// How a successful run ended.
#[derive(Clone, Copy, Debug, PartialEq, Eq, Structural)]
pub enum Outcome {
    /// The published address already was the WAN address.
    Unchanged,
    /// The record was set to the WAN address.
    Updated,
}

/// What the driver does next.
#[derive(Debug, PartialEq, Eq)]
pub enum Action {
    /// Send this request and come back with what came of it.
    Send(HttpRequest),
    /// The run succeeded.
    Finish(Outcome),
    /// The run failed.
    Fail(SyncError),
    /// The run was over before this step.
    Halt,
}

/// An [`Action`], over sequences of characters; of a failure, its kind.
pub enum ActionModel {
    Send(RequestModel),
    Finish(Outcome),
    Fail(ErrorKind),
    Halt,
}

impl View for Action {
    type V = ActionModel;

    open spec fn view(&self) -> ActionModel {
        match self {
            Action::Send(request) => ActionModel::Send(request@),
            Action::Finish(outcome) => ActionModel::Finish(*outcome),
            Action::Fail(e) => ActionModel::Fail(e.spec_kind()),
            Action::Halt => ActionModel::Halt,
        }
    }
}

/// The rule of a run: from a stage and what came of its request to the next
/// stage and what to do.
///
/// A finished run stays finished. A transport failure ends the run with a
/// network error. The WAN address leads to the DNS query. A published
/// address equal to the WAN address ends the run with nothing sent to the
/// provider; a different one leads to the record list, the record to the
/// update, and the confirmed update to the end. An error of any step ends
/// the run.
pub open spec fn next(
    config: ConfigModel,
    format: WanFormat,
    stage: StageModel,
    event: EventModel,
) -> (StageModel, ActionModel) {
    match (stage, event) {
        (StageModel::Done, _) => (StageModel::Done, ActionModel::Halt),
        (_, EventModel::TransportFailure(_)) => (
            StageModel::Done,
            ActionModel::Fail(ErrorKind::Network),
        ),
        (StageModel::AwaitWan, EventModel::Response(body)) => match wan_address(format, body) {
            Some(wan) => (
                StageModel::AwaitDns { wan },
                ActionModel::Send(dns_request_model(config.domain)),
            ),
            None => (StageModel::Done, ActionModel::Fail(ErrorKind::Parse)),
        },
        (StageModel::AwaitDns { wan }, EventModel::Response(body)) => match dns_address(body) {
            Ok(published) => if published == wan {
                (StageModel::Done, ActionModel::Finish(Outcome::Unchanged))
            } else {
                (
                    StageModel::AwaitRecords { wan },
                    ActionModel::Send(list_request_model(config.zone_id, config.token)),
                )
            },
            Err(kind) => (StageModel::Done, ActionModel::Fail(kind)),
        },
        (StageModel::AwaitRecords { wan }, EventModel::Response(body)) => match located(
            body,
            config.domain,
        ) {
            Ok(record_id) => (
                StageModel::AwaitUpdate { wan },
                ActionModel::Send(
                    patch_request_model(config.domain, config.zone_id, record_id, config.token, wan),
                ),
            ),
            Err(kind) => (StageModel::Done, ActionModel::Fail(kind)),
        },
        (StageModel::AwaitUpdate { wan }, EventModel::Response(body)) => match update_result(body) {
            Ok(_) => (StageModel::Done, ActionModel::Finish(Outcome::Updated)),
            Err(kind) => (StageModel::Done, ActionModel::Fail(kind)),
        },
    }
}

/// Where the published address equals the WAN address the run ends at once,
/// with no request to the provider, and no later step sends one.
pub proof fn lemma_equal_addresses_send_nothing(
    config: ConfigModel,
    format: WanFormat,
    address: Seq<char>,
    body: Seq<char>,
    later: EventModel,
)
    requires
        config.valid(),
        dns_address(body) == Ok::<Seq<char>, ErrorKind>(address),
    ensures
        next(config, format, StageModel::AwaitDns { wan: address }, EventModel::Response(body)) == (
            StageModel::Done,
            ActionModel::Finish(Outcome::Unchanged),
        ),
        next(config, format, StageModel::Done, later) == (StageModel::Done, ActionModel::Halt),
{
}

/// Which request a step can send: the DNS query once the WAN address is
/// known, the record list only where the published address differs from the
/// WAN address, the update only once the record has been found. No other
/// step sends anything.
pub proof fn lemma_requests_by_stage(
    config: ConfigModel,
    format: WanFormat,
    stage: StageModel,
    event: EventModel,
)
    requires
        next(config, format, stage, event).1 is Send,
    ensures
        event is Response,
        match stage {
            StageModel::AwaitWan => next(config, format, stage, event).1 == ActionModel::Send(
                dns_request_model(config.domain),
            ),
            StageModel::AwaitDns { wan } => dns_address(event->Response_0) is Ok && dns_address(
                event->Response_0,
            )->Ok_0 != wan && next(config, format, stage, event).1 == ActionModel::Send(
                list_request_model(config.zone_id, config.token),
            ),
            StageModel::AwaitRecords { wan } => located(event->Response_0, config.domain) is Ok
                && next(config, format, stage, event).1 == ActionModel::Send(
                patch_request_model(
                    config.domain,
                    config.zone_id,
                    located(event->Response_0, config.domain)->Ok_0,
                    config.token,
                    wan,
                ),
            ),
            StageModel::AwaitUpdate { .. } => false,
            StageModel::Done => false,
        },
{
}

/// Every request that a run sends goes over TLS.
pub proof fn lemma_requests_use_https(
    config: ConfigModel,
    format: WanFormat,
    stage: StageModel,
    event: EventModel,
)
    requires
        next(config, format, stage, event).1 is Send,
    ensures
        is_https(wan_request_model().url),
        is_https(next(config, format, stage, event).1->Send_0.url),
{
    reveal_strlit("https://");
    reveal_strlit("https://1.1.1.1/cdn-cgi/trace");
    reveal_strlit("https://1.1.1.1/dns-query");
    reveal_strlit("https://api.cloudflare.com/client/v4/zones/");
    let scheme = "https://"@;
    let zones = "https://api.cloudflare.com/client/v4/zones/"@;
    assert(scheme =~= wan_request_model().url.subrange(0, 8));
    assert(scheme =~= dns_request_model(config.domain).url.subrange(0, 8));
    assert(scheme =~= zones.subrange(0, 8));
    let url = next(config, format, stage, event).1->Send_0.url;
    lemma_requests_by_stage(config, format, stage, event);
    match stage {
        StageModel::AwaitDns { .. } | StageModel::AwaitRecords { .. } => {
            assert(url.subrange(0, 8) =~= zones.subrange(0, 8));
        },
        _ => {},
    }
}

/// An update is repeatable: the request for one target address is the same
/// each time, and every response that confirms success ends the run as
/// updated.
pub proof fn lemma_update_repeatable(
    config: ConfigModel,
    format: WanFormat,
    wan: Seq<char>,
    first: Seq<char>,
    second: Seq<char>,
)
    requires
        update_result(first) == Ok::<bool, ErrorKind>(true),
        update_result(second) == Ok::<bool, ErrorKind>(true),
    ensures
        next(config, format, StageModel::AwaitUpdate { wan }, EventModel::Response(first)) == (
            StageModel::Done,
            ActionModel::Finish(Outcome::Updated),
        ),
        next(config, format, StageModel::AwaitUpdate { wan }, EventModel::Response(second)) == (
            StageModel::Done,
            ActionModel::Finish(Outcome::Updated),
        ),
{
}

/// What the message of the error `e` says, where a step from `stage` on
/// `event` fails with it: a transport failure gives the driver's message, a
/// missing datum names what is missing, a rejected update ends with the
/// provider's raw response body, and a body that is no JSON gives the
/// parser's description after a fixed start.
pub open spec fn failure_message(
    config: ConfigModel,
    stage: StageModel,
    event: EventModel,
    e: SyncError,
) -> bool {
    match (stage, event) {
        (StageModel::Done, _) => true,
        (_, EventModel::TransportFailure(message)) => e.spec_message() == message,
        (StageModel::AwaitWan, EventModel::Response(_)) => e.spec_message()
            == wan_missing_message(),
        (StageModel::AwaitDns { .. }, EventModel::Response(_)) => if e.spec_kind()
            == ErrorKind::NotFound {
            e.spec_message() == dns_missing_message(config.domain)
        } else {
            dns_parse_prefix().is_prefix_of(e.spec_message())
        },
        (StageModel::AwaitRecords { .. }, EventModel::Response(_)) => if e.spec_kind()
            == ErrorKind::NotFound {
            e.spec_message() == record_missing_message(config.domain)
        } else {
            list_parse_prefix().is_prefix_of(e.spec_message())
        },
        (StageModel::AwaitUpdate { .. }, EventModel::Response(body)) => if e.spec_kind()
            == ErrorKind::UpdateRejected {
            e.spec_message() == rejected_message(body)
        } else {
            update_parse_prefix().is_prefix_of(e.spec_message())
        },
    }
}

/// Begins a run: the stage that waits for the WAN address, and the request
/// that asks for it.
pub fn start() -> (r: (Stage, HttpRequest))
    ensures
        r.0@ == StageModel::AwaitWan,
        r.1@ == wan_request_model(),
{
    (Stage::AwaitWan, wan_request())
}

/// Takes one step of a run, as [`next`] rules; the message of a failure is
/// as [`failure_message`] says.
pub fn step(config: &Config, format: WanFormat, stage: Stage, event: Event) -> (r: (Stage, Action))
    ensures
        (r.0@, r.1@) == next(config@, format, stage@, event@),
        r.1 matches Action::Fail(e) ==> failure_message(config@, stage@, event@, e),
{
    match (stage, event) {
        (Stage::Done, _) => (Stage::Done, Action::Halt),
        (_, Event::TransportFailure(message)) => (
            Stage::Done,
            Action::Fail(SyncError::Network(message)),
        ),
        (Stage::AwaitWan, Event::Response(body)) => match get_wan_address(format, body.as_str()) {
            Ok(wan) => (Stage::AwaitDns { wan }, Action::Send(dns_request(config.domain.as_str()))),
            Err(e) => (Stage::Done, Action::Fail(e)),
        },
        (Stage::AwaitDns { wan }, Event::Response(body)) => match get_dns_address(
            config.domain.as_str(),
            body.as_str(),
        ) {
            Ok(published) => if published == wan {
                (Stage::Done, Action::Finish(Outcome::Unchanged))
            } else {
                (
                    Stage::AwaitRecords { wan },
                    Action::Send(list_request(config.zone_id.as_str(), config.token.as_str())),
                )
            },
            Err(e) => (Stage::Done, Action::Fail(e)),
        },
        (Stage::AwaitRecords { wan }, Event::Response(body)) => match build_cf_api_client(
            config.domain.as_str(),
            config.zone_id.as_str(),
            config.token.as_str(),
            body.as_str(),
        ) {
            Ok(client) => {
                let request = client.update_request(wan.as_str());
                (Stage::AwaitUpdate { wan }, Action::Send(request))
            },
            Err(e) => (Stage::Done, Action::Fail(e)),
        },
        (Stage::AwaitUpdate { wan }, Event::Response(body)) => match read_update_response(
            body.as_str(),
        ) {
            Ok(_) => (Stage::Done, Action::Finish(Outcome::Updated)),
            Err(e) => (Stage::Done, Action::Fail(e)),
        },
    }
}

} // verus!
