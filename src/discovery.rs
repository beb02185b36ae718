//! The discovery file that tells the browser client where the WebSocket
//! endpoint listens, and the files removed at shutdown.
use vstd::prelude::*;
use vstd::string::StringExecFns;
use crate::text::push_char;

verus! {

/// The name of the discovery file in the web directory.
pub open spec fn discovery_name() -> Seq<char> {
    "_ws.json"@
}

/// The decimal digit of `d`, below ten.
pub open spec fn digit_char(d: nat) -> char {
    (d + 48) as char
}

/// The decimal text of `n`, without leading zeros.
pub open spec fn decimal(n: nat) -> Seq<char>
    decreases n,
{
    if n < 10 {
        seq![digit_char(n)]
    } else {
        decimal(n / 10).push(digit_char(n % 10))
    }
}

/// The decimal text of `n`.
pub fn decimal_string(n: u16) -> (r: String)
    ensures
        r@ == decimal(n as nat),
    decreases n,
{
    let mut r = if n < 10 {
        String::new()
    } else {
        decimal_string(n / 10)
    };
    let d = (n % 10) as u8;
    push_char(&mut r, (48u8 + d) as char);
    r
}

/// The body of the discovery file for a WebSocket endpoint on `port`.
pub open spec fn discovery_text(port: u16) -> Seq<char> {
    "{\"wsPort\": \""@ + decimal(port as nat) + "\"}"@
}

/// The body of the discovery file for a WebSocket endpoint on `port`.
pub fn discovery_json(port: u16) -> (r: String)
    ensures
        r@ == discovery_text(port),
{
    let mut r = String::from_str("{\"wsPort\": \"");
    let p = decimal_string(port);
    r.append(p.as_str());
    r.append("\"}");
    r
}

/// The path of file `f` in directory `d`: a separator goes between them
/// unless `d` is empty or already ends with one.
pub open spec fn joined(d: Seq<char>, f: Seq<char>) -> Seq<char> {
    if d.len() == 0 || d.last() == '/' {
        d + f
    } else {
        d + "/"@ + f
    }
}

/// The path of the discovery file in web directory `web_dir`.
pub fn discovery_path(web_dir: &str) -> (r: String)
    ensures
        r@ == joined(web_dir@, discovery_name()),
{
    let mut r = String::from_str(web_dir);
    let n = web_dir.unicode_len();
    if n > 0 && web_dir.get_char(n - 1) != '/' {
        r.append("/");
    }
    r.append("_ws.json");
    r
}

/// The files to remove before the process exits: the domain-socket file,
/// where one was configured, then the discovery file of the web directory,
/// where one was configured.
pub open spec fn cleanup_list(uds: Option<Seq<char>>, web_dir: Option<Seq<char>>) -> Seq<Seq<char>> {
    let a = match uds {
        Some(u) => seq![u],
        None => Seq::empty(),
    };
    match web_dir {
        Some(w) => a.push(joined(w, discovery_name())),
        None => a,
    }
}

/// The files to remove before the process exits.
pub fn cleanup_paths(uds: Option<String>, web_dir: Option<String>) -> (r: Vec<String>)
    ensures
        r@.map_values(|p: String| p@) == cleanup_list(
            match uds {
                Some(u) => Some(u@),
                None => None,
            },
            match web_dir {
                Some(w) => Some(w@),
                None => None,
            },
        ),
{
    let mut r: Vec<String> = Vec::new();
    let ghost a: Seq<Seq<char>> = Seq::empty();
    match uds {
        Some(u) => {
            proof {
                a = seq![u@];
            }
            r.push(u);
        },
        None => {},
    }
    assert(r@.map_values(|p: String| p@) == a);
    match web_dir {
        Some(w) => {
            let p = discovery_path(w.as_str());
            r.push(p);
            assert(r@.map_values(|p: String| p@) == a.push(joined(w@, discovery_name())));
        },
        None => {},
    }
    r
}

} // verus!
