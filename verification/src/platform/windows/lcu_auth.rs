//! Credentials of the running League Client, read from the command line of
//! its `LeagueClientUx.exe` process.
use vstd::prelude::*;

use crate::pattern::{first_match, opt_view, regex_first_match};
use crate::text::{remove_all, remove_all_spec, remove_chars, without_chars_spec};

verus! {

/// Flag that carries the client's API port on its command line.
pub const LCU_PORT_KEY: &'static str = "--app-port=";

/// Flag that carries the client's API password on its command line.
pub const LCU_TOKEN_KEY: &'static str = "--remoting-auth-token=";

/// The port flag followed by its digits.
pub const PORT_PATTERN: &'static str = "--app-port=\\d+";

/// The token flag followed by everything up to the next white space.
pub const TOKEN_PATTERN: &'static str = "--remoting-auth-token=\\S+";

/// Where and how to reach the client's API.
#[derive(Debug, PartialEq, Eq)]
pub struct LcuAuth {
    pub base_url: String,
    pub token: String,
}

/// The characters of an `LcuAuth`.
pub struct LcuAuthView {
    pub base_url: Seq<char>,
    pub token: Seq<char>,
}

impl View for LcuAuth {
    type V = LcuAuthView;

    open spec fn view(&self) -> LcuAuthView {
        LcuAuthView { base_url: self.base_url@, token: self.token@ }
    }
}

impl Clone for LcuAuth {
    fn clone(&self) -> (r: Self)
        ensures
            r == *self,
    {
        LcuAuth { base_url: self.base_url.clone(), token: self.token.clone() }
    }
}

/// The characters of optional credentials.
pub open spec fn opt_auth_view(o: Option<LcuAuth>) -> Option<LcuAuthView> {
    match o {
        Some(a) => Some(a@),
        None => None,
    }
}

/// The address of the client's API on the local machine for `port`.
pub open spec fn local_base_url(port: Seq<char>) -> Seq<char> {
    "https://127.0.0.1:"@ + port
}

/// The port in a match of `PORT_PATTERN`: the match without the flag.
pub open spec fn port_of_match(m: Seq<char>) -> Seq<char> {
    remove_all_spec(m, LCU_PORT_KEY@)
}

/// The token in a match of `TOKEN_PATTERN`: the match without the flag,
/// backslashes and double quotes.
pub open spec fn token_of_match(m: Seq<char>) -> Seq<char> {
    without_chars_spec(remove_all_spec(m, LCU_TOKEN_KEY@), seq!['\\', '"'])
}

/// Credentials built from the matches of the port and token patterns; there
/// are none unless both matched.
pub open spec fn auth_from_matches_spec(
    port_match: Option<Seq<char>>,
    token_match: Option<Seq<char>>,
) -> Option<LcuAuthView> {
    match (port_match, token_match) {
        (Some(p), Some(t)) => Some(
            LcuAuthView { base_url: local_base_url(port_of_match(p)), token: token_of_match(t) },
        ),
        _ => None,
    }
}

/// Credentials from the text the port and token patterns matched, if both did.
pub fn auth_from_matches(port_match: Option<String>, token_match: Option<String>) -> (r: Option<
    LcuAuth,
>)
    ensures
        opt_auth_view(r) == auth_from_matches_spec(opt_view(port_match), opt_view(token_match)),
{
    match (port_match, token_match) {
        (Some(p), Some(t)) => {
            let port = remove_all(p.as_str(), LCU_PORT_KEY);
            let token = remove_all(t.as_str(), LCU_TOKEN_KEY);
            let token = remove_chars(token.as_str(), &['\\', '"']);
            let mut base_url = String::from_str("https://127.0.0.1:");
            base_url.append(port.as_str());
            Some(LcuAuth { base_url, token })
        },
        _ => None,
    }
}

/// Credentials from the command line of the client process: `None` unless
/// both the port flag and the token flag are on it.
pub fn match_stdout(stdout: &str) -> (r: Option<LcuAuth>)
    ensures
        opt_auth_view(r) == auth_from_matches_spec(
            regex_first_match(PORT_PATTERN@, stdout@),
            regex_first_match(TOKEN_PATTERN@, stdout@),
        ),
{
    let port_match = first_match(PORT_PATTERN, stdout);
    if port_match.is_none() {
        return None;
    }
    let token_match = first_match(TOKEN_PATTERN, stdout);
    auth_from_matches(port_match, token_match)
}

/// Found credentials always address the local machine over HTTPS, and their
/// token holds neither a backslash nor a double quote.
pub proof fn law_auth_shape(port_match: Option<Seq<char>>, token_match: Option<Seq<char>>)
    ensures
        auth_from_matches_spec(port_match, token_match) matches Some(a) ==> {
            &&& a.base_url.take(18) == "https://127.0.0.1:"@
            &&& !a.token.contains('\\')
            &&& !a.token.contains('"')
        },
{
    if let (Some(p), Some(t)) = (port_match, token_match) {
        reveal_strlit("https://127.0.0.1:");
        let a = auth_from_matches_spec(port_match, token_match).unwrap();
        assert(a.base_url.take(18) =~= "https://127.0.0.1:"@);
        crate::text::lemma_without_chars_excludes(
            remove_all_spec(t, LCU_TOKEN_KEY@),
            seq!['\\', '"'],
        );
        assert(seq!['\\', '"'].contains('\\')) by {
            assert(seq!['\\', '"'][0] == '\\');
        }
        assert(seq!['\\', '"'].contains('"')) by {
            assert(seq!['\\', '"'][1] == '"');
        }
    }
}


/// The credentials for flags `--app-port=<port>` and
/// `--remoting-auth-token=<token>`, whose values do not repeat the flag and
/// whose token holds no backslash or double quote: the local address on
/// exactly that port and exactly that token. Without either match there are
/// no credentials.
pub proof fn law_credentials_from_flag_values(port: Seq<char>, token: Seq<char>, m: Option<Seq<char>>)
    requires
        !crate::text::is_substring("--app-port="@, port),
        !crate::text::is_substring("--remoting-auth-token="@, token),
        forall|i: int| 0 <= i < token.len() ==> #[trigger] token[i] != '\\' && token[i] != '"',
    ensures
        auth_from_matches_spec(Some("--app-port="@ + port), Some("--remoting-auth-token="@ + token))
            == Some((LcuAuthView { base_url: "https://127.0.0.1:"@ + port, token })),
        auth_from_matches_spec(None, m) is None,
        auth_from_matches_spec(m, None) is None,
{
    reveal_strlit("--app-port=");
    reveal_strlit("--remoting-auth-token=");
    crate::text::lemma_remove_all_leading("--app-port="@, port);
    crate::text::lemma_remove_all_leading("--remoting-auth-token="@, token);
    let set = seq!['\\', '"'];
    assert forall|i: int| 0 <= i < token.len() implies !set.contains(#[trigger] token[i]) by {
        if set.contains(token[i]) {
            let k = choose|k: int| 0 <= k < set.len() && set[k] == token[i];
            assert(k == 0 || k == 1);
        }
    }
    crate::text::lemma_without_chars_none(token, set);
}

} // verus!
