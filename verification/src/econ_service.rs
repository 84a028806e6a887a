//! The `GetTradeHistory` endpoint of the `IEconService` interface.

use vstd::prelude::*;
use vstd::string::StringExecFns;

use crate::args::args_frag;
use crate::args::gen_args;
use crate::args::pairs_view;
use crate::errors::EconServiceError;
use crate::http::call_outcome_spec;
use crate::http::do_http;
use crate::http::parse_allowed;
use crate::http::parse_allowed_spec;
use crate::http::HttpEvent;
use crate::render::bool_seq;
use crate::render::bool_text;
use crate::render::dec_seq;
use crate::render::u64_to_dec;
use crate::Steam;

verus! {

/// The trade history returned for an account.
#[derive(Debug, Clone, PartialEq, Eq)]
pub struct TradeHistory {
    /// How many trades the account has in all.
    pub total_trades: u32,
    /// Whether more trades exist beyond the ones returned.
    pub more: bool,
    /// The returned trades.
    pub trades: Vec<Trade>,
}

/// One trade of the history.
#[derive(Debug, Clone, PartialEq, Eq)]
pub struct Trade {
    /// Identifier of the trade.
    pub tradeid: String,
    /// Steam ID of the other party.
    pub steamid_other: String,
    /// When the trade was started.
    pub time_init: u32,
    /// Status of the trade.
    pub status: u32,
    /// The assets given away, where the service reports them.
    pub assets_given: Option<Vec<Asset>>,
    /// The assets received, where the service reports them.
    pub assets_recieved: Option<Vec<Asset>>,
}

/// One asset moved by a trade.
#[derive(Debug, Clone, PartialEq, Eq)]
pub struct Asset {
    /// App the asset belongs to.
    pub appid: u32,
    /// Context the asset lives in.
    pub contextid: String,
    /// Identifier of the asset.
    pub assetid: String,
    /// How many of the asset were moved.
    pub amount: String,
    /// Class of the asset.
    pub classid: String,
    /// Instance of the asset.
    pub instanceid: String,
    /// Identifier of the asset after the trade.
    pub new_assetid: String,
    /// Context of the asset after the trade.
    pub new_contextid: String,
}

/// The wire envelope of `GetTradeHistory`: the service nests the payload
/// under the `response` key.
#[derive(Debug, Clone, PartialEq, Eq)]
pub struct TradeHistoryEnvelope {
    /// The real payload.
    pub response: TradeHistory,
}

/// The accepted-status set of `GetTradeHistory`: only a 200 answer has its
/// body parsed; any other status — 404 included — is rejected unread.
pub open spec fn trade_history_parse_allowed_spec(status: u16) -> bool {
    parse_allowed_spec(status, false)
}

/// The ordered query arguments of `GetTradeHistory`: the API key first,
/// then each parameter under its wire name, rendered as text.
pub open spec fn trade_history_query(
    key: Seq<char>,
    max_trades: u32,
    start_after_time: u32,
    start_after_trade_id: u64,
    navigating_back: bool,
    get_descriptions: bool,
    language: Seq<char>,
    include_failed: bool,
    include_total: bool,
) -> Seq<(Seq<char>, Seq<char>)> {
    seq![
        ("key"@, key),
        ("max_trades"@, dec_seq(max_trades as nat)),
        ("start_after_time"@, dec_seq(start_after_time as nat)),
        ("start_after_trade_id"@, dec_seq(start_after_trade_id as nat)),
        ("navigating_back"@, bool_seq(navigating_back)),
        ("get_descriptions"@, bool_seq(get_descriptions)),
        ("language"@, language),
        ("include_failed"@, bool_seq(include_failed)),
        ("include_total"@, bool_seq(include_total)),
    ]
}

/// The URL of the `GetTradeHistory` endpoint for one parameter set: the
/// fixed endpoint address followed by the formatted query arguments.
pub open spec fn trade_history_url_spec(
    key: Seq<char>,
    max_trades: u32,
    start_after_time: u32,
    start_after_trade_id: u64,
    navigating_back: bool,
    get_descriptions: bool,
    language: Seq<char>,
    include_failed: bool,
    include_total: bool,
) -> Seq<char> {
    "https://api.steampowered.com/IEconService/GetTradeHistory/v1/?"@ + args_frag(
        trade_history_query(
            key,
            max_trades,
            start_after_time,
            start_after_trade_id,
            navigating_back,
            get_descriptions,
            language,
            include_failed,
            include_total,
        ),
    )
}

/// The trade-history URL carries every argument exactly once, in the order
/// supplied and prefixed `&name=`: around any chosen argument it splits into
/// the endpoint address, the fragment of the arguments before that one, that
/// argument's own `&name=value`, and the fragment of the arguments after it.
pub proof fn lemma_trade_history_url_args(
    key: Seq<char>,
    max_trades: u32,
    start_after_time: u32,
    start_after_trade_id: u64,
    navigating_back: bool,
    get_descriptions: bool,
    language: Seq<char>,
    include_failed: bool,
    include_total: bool,
    i: int,
)
    requires
        0 <= i < trade_history_query(
            key,
            max_trades,
            start_after_time,
            start_after_trade_id,
            navigating_back,
            get_descriptions,
            language,
            include_failed,
            include_total,
        ).len(),
    ensures
        ({
            let q = trade_history_query(
                key,
                max_trades,
                start_after_time,
                start_after_trade_id,
                navigating_back,
                get_descriptions,
                language,
                include_failed,
                include_total,
            );
            trade_history_url_spec(
                key,
                max_trades,
                start_after_time,
                start_after_trade_id,
                navigating_back,
                get_descriptions,
                language,
                include_failed,
                include_total,
            ) == "https://api.steampowered.com/IEconService/GetTradeHistory/v1/?"@ + args_frag(
                q.take(i),
            ) + crate::args::arg_frag(q[i].0, q[i].1) + args_frag(q.skip(i + 1))
        }),
{
    let q = trade_history_query(
        key,
        max_trades,
        start_after_time,
        start_after_trade_id,
        navigating_back,
        get_descriptions,
        language,
        include_failed,
        include_total,
    );
    crate::args::lemma_arg_in_order(q, i);
    assert("https://api.steampowered.com/IEconService/GetTradeHistory/v1/?"@ + (args_frag(
        q.take(i),
    ) + crate::args::arg_frag(q[i].0, q[i].1) + args_frag(q.skip(i + 1)))
        =~= "https://api.steampowered.com/IEconService/GetTradeHistory/v1/?"@ + args_frag(
        q.take(i),
    ) + crate::args::arg_frag(q[i].0, q[i].1) + args_frag(q.skip(i + 1)));
}

impl Steam {
    /// Builds the URL that `GetTradeHistory` is fetched from: the endpoint
    /// address followed by the handle's API key and every parameter, each
    /// formatted as `&name=value` in the order of the parameter list.
    pub fn get_trade_history_url(
        &self,
        max_trades: u32,
        start_after_time: u32,
        start_after_trade_id: u64,
        navigating_back: bool,
        get_descriptions: bool,
        language: &str,
        include_failed: bool,
        include_total: bool,
    ) -> (u: String)
        ensures
            u@ == trade_history_url_spec(
                self.api_key@,
                max_trades,
                start_after_time,
                start_after_trade_id,
                navigating_back,
                get_descriptions,
                language@,
                include_failed,
                include_total,
            ),
    {
        let mut pairs: Vec<(String, String)> = Vec::new();
        pairs.push((String::from_str("key"), self.api_key.clone()));
        pairs.push((String::from_str("max_trades"), u64_to_dec(max_trades as u64)));
        pairs.push((String::from_str("start_after_time"), u64_to_dec(start_after_time as u64)));
        pairs.push((String::from_str("start_after_trade_id"), u64_to_dec(start_after_trade_id)));
        pairs.push((String::from_str("navigating_back"), bool_text(navigating_back)));
        pairs.push((String::from_str("get_descriptions"), bool_text(get_descriptions)));
        pairs.push((String::from_str("language"), String::from_str(language)));
        pairs.push((String::from_str("include_failed"), bool_text(include_failed)));
        pairs.push((String::from_str("include_total"), bool_text(include_total)));
        let args = gen_args(&pairs);
        let mut u = String::from_str(
            "https://api.steampowered.com/IEconService/GetTradeHistory/v1/?",
        );
        u.append(args.as_str());
        proof {
            assert(pairs_view(pairs@) =~= trade_history_query(
                self.api_key@,
                max_trades,
                start_after_time,
                start_after_trade_id,
                navigating_back,
                get_descriptions,
                language@,
                include_failed,
                include_total,
            ));
        }
        u
    }

    /// Decides whether the body of a `GetTradeHistory` response with this
    /// status is to be parsed.  The application consults this before it
    /// reads the body.
    pub fn get_trade_history_parse_allowed(&self, status: u16) -> (r: bool)
        ensures
            r == trade_history_parse_allowed_spec(status),
    {
        parse_allowed(status, false)
    }

    /// Concludes one `GetTradeHistory` exchange: a parsed envelope yields
    /// the unwrapped trade history, and every failure yields this endpoint's
    /// error with the diagnostic of the failure.
    pub fn get_trade_history_result(&self, event: HttpEvent<TradeHistoryEnvelope>) -> (r: Result<
        TradeHistory,
        EconServiceError,
    >)
        ensures
            r is Ok <==> event is BodyParsed,
            event is BodyParsed ==> r->Ok_0 == event->BodyParsed_0.response,
            r is Err ==> r->Err_0 is GetTradeHistory,
            r is Err ==> r->Err_0->GetTradeHistory_0@ == call_outcome_spec(event)->Err_0,
    {
        match do_http(event) {
            Ok(envelope) => Ok(envelope.response),
            Err(msg) => Err(EconServiceError::GetTradeHistory(msg)),
        }
    }
}

} // verus!
