//! What is sent to the node: the address of its console and the parameters
//! of a call, as far as they are decided before anything goes on the wire.

use vstd::prelude::*;
use vstd::string::StringExecFns;
use crate::error::IngestError;
use crate::text::{
    chars_of, decimal_digits, parse_u16, parse_u16_spec, pieces, push_decimal, split, string_of,
    views,
};

verus! {

/// The address of the node's console.
#[derive(Debug)]
pub struct RPCURL(String);

impl View for RPCURL {
    type V = Seq<char>;

    closed spec fn view(&self) -> Seq<char> {
        self.0@
    }
}

impl Default for RPCURL {
    fn default() -> (url: Self)
        ensures
            url@ == Seq::<char>::empty(),
    {
        RPCURL(String::new())
    }
}

impl Clone for RPCURL {
    fn clone(&self) -> (copy: Self)
        ensures
            copy@ == self@,
    {
        RPCURL(self.0.clone())
    }
}

/// The address of the console at `ip:port`. The credentials stand in it only
/// where neither the user nor the password is empty; the wallet's path only
/// where the wallet has a name.
pub open spec fn target_text(
    ip: Seq<char>,
    port: u16,
    walletname: Seq<char>,
    user: Seq<char>,
    password: Seq<char>,
) -> Seq<char> {
    let credentials = if user.len() != 0 && password.len() != 0 {
        user + ":"@ + password + "@"@
    } else {
        Seq::<char>::empty()
    };
    let path = if walletname.len() == 0 {
        "/"@
    } else {
        "/wallet/"@ + walletname
    };
    "http://"@ + credentials + ip + ":"@ + decimal_digits(port as nat) + path
}

impl RPCURL {
    /// The address as text.
    pub fn as_str(&self) -> (text: &str)
        ensures
            text@ == self@,
    {
        self.0.as_str()
    }

    /// Points the address at the console of the node at `ip:port`.
    pub fn target(self, ip: &str, port: u16, walletname: &str, user: &str, password: &str) -> (url:
        Self)
        ensures
            url@ == target_text(ip@, port, walletname@, user@, password@),
    {
        let mut text = "http://".to_owned();
        if !user.is_empty() && !password.is_empty() {
            text.append(user);
            text.append(":");
            text.append(password);
            text.append("@");
        }
        text.append(ip);
        text.append(":");
        push_decimal(&mut text, port as u64);
        if walletname.is_empty() {
            text.append("/");
        } else {
            text.append("/wallet/");
            text.append(walletname);
        }
        proof {
            let credentials = if user@.len() != 0 && password@.len() != 0 {
                user@ + ":"@ + password@ + "@"@
            } else {
                Seq::<char>::empty()
            };
            let path = if walletname@.len() == 0 {
                "/"@
            } else {
                "/wallet/"@ + walletname@
            };
            assert(text@ =~= "http://"@ + credentials + ip@ + ":"@ + decimal_digits(port as nat)
                + path);
        }
        let mut url = self;
        url.0 = text;
        url
    }
}

/// What separates the host from the port in an endpoint.
pub open spec fn endpoint_separator() -> Seq<char> {
    seq![':']
}

/// The host and the port that an endpoint of the form `host:port` names.
pub open spec fn endpoint_of(endpoint: Seq<char>) -> Result<(Seq<char>, u16), IngestError> {
    let parts = pieces(endpoint, endpoint_separator());
    if parts.len() == 2 && parse_u16_spec(parts[1]) is Some {
        Ok((parts[0], parse_u16_spec(parts[1])->0))
    } else {
        Err(IngestError::BadEndpoint)
    }
}

/// The address of the console of the node at `endpoint`, which reads
/// `host:port`, for a node without a named wallet.
pub fn node_url(endpoint: &str, user: &str, password: &str) -> (r: Result<RPCURL, IngestError>)
    ensures
        match endpoint_of(endpoint@) {
            Ok((ip, port)) => r matches Ok(url) && url@ == target_text(
                ip,
                port,
                Seq::<char>::empty(),
                user@,
                password@,
            ),
            Err(e) => r == Err::<RPCURL, IngestError>(e),
        },
{
    let chars = chars_of(endpoint);
    let mut sep: Vec<char> = Vec::new();
    sep.push(':');
    let parts = split(&chars, &sep);
    proof {
        assert(views(parts@).len() == parts@.len());
        if parts@.len() == 2 {
            assert(views(parts@)[0] == parts@[0]@);
            assert(views(parts@)[1] == parts@[1]@);
        }
    }
    if parts.len() != 2 {
        return Err(IngestError::BadEndpoint);
    }
    match parse_u16(&parts[1]) {
        None => Err(IngestError::BadEndpoint),
        Some(port) => {
            let ip = string_of(&parts[0]);
            let wallet = String::new();
            Ok(RPCURL::default().target(ip.as_str(), port, wallet.as_str(), user, password))
        },
    }
}

// ---------------------------------------------------------------------
// Parameters of a call
// ---------------------------------------------------------------------

/// One word of a command line, as it is sent to the node.
#[derive(Debug, Clone, PartialEq, Eq)]
pub enum RpcParam {
    /// A word that is JSON text; the value that it writes is sent.
    Json(String),
    /// Any other word; it is sent as a string.
    Text(String),
}

/// What an `RpcParam` says.
pub enum RpcParamView {
    Json(Seq<char>),
    Text(Seq<char>),
}

impl View for RpcParam {
    type V = RpcParamView;

    open spec fn view(&self) -> RpcParamView {
        match self {
            RpcParam::Json(text) => RpcParamView::Json(text@),
            RpcParam::Text(text) => RpcParamView::Text(text@),
        }
    }
}

/// A call: the method and its parameters.
#[derive(Debug, Clone, PartialEq, Eq)]
pub struct RpcRequest {
    pub method: RpcParam,
    pub params: Vec<RpcParam>,
}

/// Whether `serde_json` reads `text` as one JSON value.
pub uninterp spec fn json_valid(text: Seq<char>) -> bool;

/// Whether `text` is one JSON value.
///
/// Trusted: wraps `serde_json::from_str` at the type `serde_json::Value`,
/// which reads the whole text and fails on anything that is not exactly one
/// JSON value. The outcome depends on the text alone; the contract names it.
#[verifier::external_body]
fn is_json(text: &str) -> (valid: bool)
    ensures
        valid == json_valid(text@),
{
    serde_json::from_str::<serde_json::Value>(text).is_ok()
}

/// The parameter that a word stands for, given whether it is JSON text.
pub open spec fn param_view(word: Seq<char>, json: bool) -> RpcParamView {
    if json {
        RpcParamView::Json(word)
    } else {
        RpcParamView::Text(word)
    }
}

/// The parameter that a word stands for, given whether it is JSON text.
pub fn param_of(word: String, json: bool) -> (param: RpcParam)
    ensures
        param@ == param_view(word@, json),
{
    if json {
        RpcParam::Json(word)
    } else {
        RpcParam::Text(word)
    }
}

/// What separates the words of a command line.
pub open spec fn word_separator() -> Seq<char> {
    seq![' ']
}

/// The views of a list of parameters, element by element.
pub open spec fn params_view(params: Seq<RpcParam>) -> Seq<RpcParamView> {
    Seq::new(params.len(), |i: int| params[i]@)
}

/// The parameters that a command line stands for: one for each piece
/// between single blanks.
pub open spec fn parameters_of(args: Seq<char>) -> Seq<RpcParamView> {
    let words = pieces(args, word_separator());
    Seq::new(words.len(), |i: int| param_view(words[i], json_valid(words[i])))
}

/// Cuts a command line at every blank and decides for each word whether it
/// is sent as a JSON value or as a string.
pub fn parametrize(args: &str) -> (params: Vec<RpcParam>)
    ensures
        params_view(params@) == parameters_of(args@),
        params.len() >= 1,
{
    let chars = chars_of(args);
    let mut sep: Vec<char> = Vec::new();
    sep.push(' ');
    let words = split(&chars, &sep);
    let mut params: Vec<RpcParam> = Vec::new();
    let mut i: usize = 0;
    while i < words.len()
        invariant
            i <= words.len(),
            params.len() == i,
            views(words@) == pieces(args@, word_separator()),
            forall|k: int| 0 <= k < i ==> (#[trigger] params@[k])@ == param_view(
                words@[k]@,
                json_valid(words@[k]@),
            ),
        decreases words.len() - i,
    {
        let word = string_of(&words[i]);
        let json = is_json(word.as_str());
        params.push(param_of(word, json));
        i += 1;
    }
    proof {
        assert(views(words@).len() == words@.len());
        assert forall|k: int| 0 <= k < params@.len() implies params_view(params@)[k]
            == parameters_of(args@)[k] by {
            assert(views(words@)[k] == words@[k]@);
        }
        assert(params_view(params@) =~= parameters_of(args@));
    }
    params
}

/// The call that a command line stands for: its first word is the method,
/// the others are the parameters.
pub fn request_of(args: &str) -> (request: RpcRequest)
    ensures
        request.method@ == parameters_of(args@)[0],
        params_view(request.params@) == parameters_of(args@).drop_first(),
{
    let mut params = parametrize(args);
    let ghost all = params_view(params@);
    let method = params.remove(0);
    assert(params_view(params@) =~= all.drop_first());
    assert(method@ == all[0]);
    RpcRequest { method: method, params: params }
}

/// The code with which the node refuses a height beyond its chain tip.
pub const HEIGHT_OUT_OF_RANGE: i64 = -8;

/// Whether a refusal with this code, if the node gave one, says that the
/// node has no block at the height asked for.
pub fn no_such_height(code: Option<i64>) -> (beyond_tip: bool)
    ensures
        beyond_tip == (code == Some(HEIGHT_OUT_OF_RANGE)),
{
    match code {
        Some(code) => code == HEIGHT_OUT_OF_RANGE,
        None => false,
    }
}

/// The node's answer to a call. The result is JSON text.
#[derive(Debug, Clone, PartialEq, Eq)]
pub struct RPCResponse {
    pub result: String,
    pub error: Option<String>,
    pub id: String,
}

impl RPCResponse {
    /// The result of the call, or the error that the node reported.
    pub fn unpack(self) -> (r: Result<String, IngestError>)
        ensures
            r == match self.error {
                Some(err) => Err::<String, IngestError>(IngestError::Upstream(err)),
                None => Ok(self.result),
            },
    {
        match self.error {
            Some(err) => Err(IngestError::Upstream(err)),
            None => Ok(self.result),
        }
    }
}

} // verus!
