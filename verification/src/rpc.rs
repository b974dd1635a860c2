use vstd::prelude::*;
use vstd::string::StringExecFns;

verus! {

/// The JSON-RPC request body that submits a raw transaction: the method
/// is `eth_sendPrivateRawTransaction` when `private` holds, otherwise
/// `eth_sendRawTransaction`, and the transaction text is the single
/// parameter.
pub open spec fn spec_request(private: bool, tx: Seq<char>) -> Seq<char> {
    "{\"jsonrpc\":\"2.0\",\"id\":1,\"method\":\""@ + (if private {
        "eth_sendPrivateRawTransaction"@
    } else {
        "eth_sendRawTransaction"@
    }) + "\",\"params\":[\""@ + tx + "\"]}"@
}

/// Builds the JSON-RPC request body that submits the transaction `tx`.
pub fn request(private: bool, tx: &String) -> (r: String)
    ensures
        r@ == spec_request(private, tx@),
{
    let method: &str = if private {
        "eth_sendPrivateRawTransaction"
    } else {
        "eth_sendRawTransaction"
    };
    let mut out = String::from_str("{\"jsonrpc\":\"2.0\",\"id\":1,\"method\":\"");
    out.append(method);
    out.append("\",\"params\":[\"");
    out.append(tx.as_str());
    out.append("\"]}");
    out
}

} // verus!
