//! Client credentials with installation directory, read from the command
//! line of the client process; a missing flag gives a fixed default.
use vstd::prelude::*;

use crate::pattern::{first_match, opt_view, regex_first_match};
use crate::text::{remove_all, remove_all_spec, remove_chars, without_chars_spec};

verus! {

/// Flag that carries the client's API port.
pub const LCU_PORT_KEY: &'static str = "--app-port=";

/// Flag that carries the client's API password.
pub const LCU_TOKEN_KEY: &'static str = "--remoting-auth-token=";

/// Flag that carries the client's installation directory.
pub const LCU_DIR_KEY: &'static str = "--install-directory=";

/// The port flag followed by its digits.
pub const PORT_PATTERN: &'static str = "--app-port=\\d+";

/// The token flag followed by everything up to the next white space.
pub const TOKEN_PATTERN: &'static str = "--remoting-auth-token=\\S+";

/// The directory flag followed by the shortest text up to a double quote.
pub const DIR_PATTERN: &'static str = "--install-directory=(.*?)\"";

/// The query that prints the command line of the client's UX process.
pub const LCU_COMMAND: &'static str = "Get-CimInstance Win32_Process -Filter \"name = 'LeagueClientUx.exe'\" | Select-Object -ExpandProperty CommandLine";

/// Where and how to reach the client's API, and where the client is installed.
#[derive(Debug, PartialEq, Eq)]
pub struct LcuAuth {
    pub base_url: String,
    pub token: String,
    pub port: String,
    pub install_dir: String,
}

/// The characters of an `LcuAuth`.
pub struct LcuAuthView {
    pub base_url: Seq<char>,
    pub token: Seq<char>,
    pub port: Seq<char>,
    pub install_dir: Seq<char>,
}

impl View for LcuAuth {
    type V = LcuAuthView;

    open spec fn view(&self) -> LcuAuthView {
        LcuAuthView {
            base_url: self.base_url@,
            token: self.token@,
            port: self.port@,
            install_dir: self.install_dir@,
        }
    }
}

impl Clone for LcuAuth {
    fn clone(&self) -> (r: Self)
        ensures
            r == *self,
    {
        LcuAuth {
            base_url: self.base_url.clone(),
            token: self.token.clone(),
            port: self.port.clone(),
            install_dir: self.install_dir.clone(),
        }
    }
}

impl Default for LcuAuth {
    fn default() -> (r: Self)
        ensures
            r@.base_url.len() == 0,
            r@.token.len() == 0,
            r@.port.len() == 0,
            r@.install_dir.len() == 0,
    {
        LcuAuth {
            base_url: String::new(),
            token: String::new(),
            port: String::new(),
            install_dir: String::new(),
        }
    }
}

/// The address of the client's API on the local machine for `port`.
pub open spec fn base_url_spec(port: Seq<char>) -> Seq<char> {
    "https://127.0.0.1:"@ + port
}

/// The port: the port match without the flag, `"0"` without a match.
pub open spec fn port_spec(port_match: Option<Seq<char>>) -> Seq<char> {
    match port_match {
        Some(m) => remove_all_spec(m, LCU_PORT_KEY@),
        None => "0"@,
    }
}

/// The token: the token match without the flag, backslashes and double
/// quotes; empty without a match.
pub open spec fn token_spec(token_match: Option<Seq<char>>) -> Seq<char> {
    match token_match {
        Some(m) => without_chars_spec(remove_all_spec(m, LCU_TOKEN_KEY@), seq!['\\', '"']),
        None => Seq::<char>::empty(),
    }
}

/// The installation directory: the directory match without the flag and
/// without double quotes, followed by `/`; just `/` without a match.
pub open spec fn install_dir_spec(dir_match: Option<Seq<char>>) -> Seq<char> {
    let raw = match dir_match {
        Some(m) => remove_all_spec(m, LCU_DIR_KEY@),
        None => Seq::<char>::empty(),
    };
    without_chars_spec(raw, seq!['"']) + "/"@
}

/// Credentials built from what the three patterns matched.
pub open spec fn auth_spec(
    port_match: Option<Seq<char>>,
    token_match: Option<Seq<char>>,
    dir_match: Option<Seq<char>>,
) -> LcuAuthView {
    LcuAuthView {
        base_url: base_url_spec(port_spec(port_match)),
        token: token_spec(token_match),
        port: port_spec(port_match),
        install_dir: install_dir_spec(dir_match),
    }
}

/// The address of the client's API on the local machine for `port`.
pub fn make_base_url(port: &str) -> (r: String)
    ensures
        r@ == base_url_spec(port@),
{
    let mut r = String::from_str("https://127.0.0.1:");
    r.append(port);
    r
}

/// Credentials from the text the three patterns matched, with the defaults
/// for those that did not match.
pub fn auth_from_matches(
    port_match: Option<String>,
    token_match: Option<String>,
    dir_match: Option<String>,
) -> (r: LcuAuth)
    ensures
        r@ == auth_spec(opt_view(port_match), opt_view(token_match), opt_view(dir_match)),
{
    let port = match port_match {
        Some(m) => remove_all(m.as_str(), LCU_PORT_KEY),
        None => String::from_str("0"),
    };
    let token = match token_match {
        Some(m) => {
            let t = remove_all(m.as_str(), LCU_TOKEN_KEY);
            remove_chars(t.as_str(), &['\\', '"'])
        },
        None => String::new(),
    };
    let base_url = make_base_url(port.as_str());
    let raw_dir = match dir_match {
        Some(m) => remove_all(m.as_str(), LCU_DIR_KEY),
        None => String::new(),
    };
    let quote: [char; 1] = ['"'];
    assert(quote@ =~= seq!['"']);
    let mut install_dir = remove_chars(raw_dir.as_str(), &quote);
    install_dir.append("/");
    LcuAuth { base_url, token, port, install_dir }
}

/// Credentials from the command line of the client process.
pub fn match_stdout(stdout: &str) -> (r: LcuAuth)
    ensures
        r@ == auth_spec(
            regex_first_match(PORT_PATTERN@, stdout@),
            regex_first_match(TOKEN_PATTERN@, stdout@),
            regex_first_match(DIR_PATTERN@, stdout@),
        ),
{
    let port_match = first_match(PORT_PATTERN, stdout);
    let token_match = first_match(TOKEN_PATTERN, stdout);
    let dir_match = first_match(DIR_PATTERN, stdout);
    auth_from_matches(port_match, token_match, dir_match)
}

/// The API address is always the local one for the reported port, and the
/// installation directory always ends with `/` and holds no double quote.
pub proof fn law_auth_shape(
    port_match: Option<Seq<char>>,
    token_match: Option<Seq<char>>,
    dir_match: Option<Seq<char>>,
)
    ensures
        ({
            let a = auth_spec(port_match, token_match, dir_match);
            &&& a.base_url == "https://127.0.0.1:"@ + a.port
            &&& a.install_dir.len() > 0
            &&& a.install_dir.last() == '/'
            &&& !a.install_dir.drop_last().contains('"')
            &&& !a.token.contains('\\')
            &&& !a.token.contains('"')
        }),
{
    reveal_strlit("/");
    let a = auth_spec(port_match, token_match, dir_match);
    let raw = match dir_match {
        Some(m) => remove_all_spec(m, LCU_DIR_KEY@),
        None => Seq::<char>::empty(),
    };
    let kept = without_chars_spec(raw, seq!['"']);
    crate::text::lemma_without_chars_excludes(raw, seq!['"']);
    assert(seq!['"'].contains('"')) by {
        assert(seq!['"'][0] == '"');
    }
    assert(a.install_dir.drop_last() =~= kept);
    if let Some(t) = token_match {
        crate::text::lemma_without_chars_excludes(remove_all_spec(t, LCU_TOKEN_KEY@), seq!['\\', '"']);
        assert(seq!['\\', '"'].contains('\\')) by {
            assert(seq!['\\', '"'][0] == '\\');
        }
        assert(seq!['\\', '"'].contains('"')) by {
            assert(seq!['\\', '"'][1] == '"');
        }
    }
}


/// The credentials for flags `--app-port=<port>`,
/// `--remoting-auth-token=<token>` and `--install-directory=<dir>"`, whose
/// values do not repeat their flag, whose token holds no backslash or double
/// quote and whose directory holds no double quote: exactly that port, the
/// local address on it, exactly that token, and the directory followed by
/// `/`. Without any match: port `0`, its local address, no token, and `/`.
pub proof fn law_credentials_from_flag_values(port: Seq<char>, token: Seq<char>, dir: Seq<char>)
    requires
        !crate::text::is_substring("--app-port="@, port),
        !crate::text::is_substring("--remoting-auth-token="@, token),
        !crate::text::is_substring("--install-directory="@, dir + seq!['"']),
        forall|i: int| 0 <= i < token.len() ==> #[trigger] token[i] != '\\' && token[i] != '"',
        forall|i: int| 0 <= i < dir.len() ==> #[trigger] dir[i] != '"',
    ensures
        auth_spec(
            Some("--app-port="@ + port),
            Some("--remoting-auth-token="@ + token),
            Some("--install-directory="@ + dir + seq!['"']),
        ) == (LcuAuthView {
            base_url: "https://127.0.0.1:"@ + port,
            token,
            port,
            install_dir: dir + seq!['/'],
        }),
        auth_spec(None, None, None) == (LcuAuthView {
            base_url: "https://127.0.0.1:"@ + seq!['0'],
            token: Seq::<char>::empty(),
            port: seq!['0'],
            install_dir: seq!['/'],
        }),
{
    reveal_strlit("--app-port=");
    reveal_strlit("--remoting-auth-token=");
    reveal_strlit("--install-directory=");
    reveal_strlit("/");
    reveal_strlit("0");
    crate::text::lemma_remove_all_leading("--app-port="@, port);
    crate::text::lemma_remove_all_leading("--remoting-auth-token="@, token);
    assert("--install-directory="@ + dir + seq!['"'] =~= "--install-directory="@ + (dir + seq!['"']));
    crate::text::lemma_remove_all_leading("--install-directory="@, dir + seq!['"']);
    let set = seq!['\\', '"'];
    assert forall|i: int| 0 <= i < token.len() implies !set.contains(#[trigger] token[i]) by {
        if set.contains(token[i]) {
            let k = choose|k: int| 0 <= k < set.len() && set[k] == token[i];
            assert(k == 0 || k == 1);
        }
    }
    crate::text::lemma_without_chars_none(token, set);
    let q = seq!['"'];
    assert forall|i: int| 0 <= i < dir.len() implies !q.contains(#[trigger] dir[i]) by {
        if q.contains(dir[i]) {
            let k = choose|k: int| 0 <= k < q.len() && q[k] == dir[i];
            assert(k == 0);
        }
    }
    crate::text::lemma_without_chars_none(dir, q);
    let dq = dir + seq!['"'];
    assert(dq.drop_last() =~= dir);
    assert(q.contains(dq.last())) by {
        assert(q[0] == dq.last());
    }
    assert(without_chars_spec(dq, q) == dir);
    assert(without_chars_spec(Seq::<char>::empty(), q) =~= Seq::<char>::empty());
    assert(Seq::<char>::empty() + "/"@ =~= seq!['/']);
    assert(dir + "/"@ =~= dir + seq!['/']);
    assert("0"@ =~= seq!['0']);
}

} // verus!
