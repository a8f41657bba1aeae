//! The configuration model. The program stores it on disk as TOML; the GUI
//! edits it and the daemon reads it.

use vstd::prelude::*;
use vstd::string::StringExecFns;
use crate::layout::Layout;
use crate::protocol::DEFAULT_PORT;

verus! {

/// A filesystem path; the library only carries it.
#[verifier::external_type_specification]
#[verifier::external_body]
pub struct ExPathBuf(std::path::PathBuf);

/// `<PathBuf as Clone>::clone`: a copy of the same path.
pub assume_specification[ <std::path::PathBuf as Clone>::clone ](p: &std::path::PathBuf) -> (r: std::path::PathBuf)
    ensures
        r == *p,
;

#[derive(Debug, Clone)]
pub struct Config {
    /// `server` owns the active mouse/keyboard; `client` receives forwarded input.
    pub role: Role,
    pub bind_addr: String,
    pub server_addr: Option<String>,
    pub layout: Layout,
    pub clipboard_sync: bool,
    pub tls: Option<TlsConfig>,
}

#[derive(Debug, Clone, Copy, PartialEq, Eq)]
pub enum Role {
    Server,
    Client,
}

#[derive(Debug, Clone)]
pub struct TlsConfig {
    pub cert: std::path::PathBuf,
    pub key: std::path::PathBuf,
    pub trust: std::path::PathBuf,
}

/// The character of a decimal digit.
pub open spec fn digit_char(d: nat) -> char {
    if d == 0 {
        '0'
    } else if d == 1 {
        '1'
    } else if d == 2 {
        '2'
    } else if d == 3 {
        '3'
    } else if d == 4 {
        '4'
    } else if d == 5 {
        '5'
    } else if d == 6 {
        '6'
    } else if d == 7 {
        '7'
    } else if d == 8 {
        '8'
    } else {
        '9'
    }
}

/// The decimal digits of `n`, most significant first, without leading zeros.
pub open spec fn decimal_digits(n: nat) -> Seq<char>
    decreases n,
{
    if n < 10 {
        seq![digit_char(n)]
    } else {
        decimal_digits(n / 10) + seq![digit_char(n % 10)]
    }
}

/// The address on which a server listens on every interface, at `port`.
pub open spec fn any_interface_addr(port: u16) -> Seq<char> {
    "0.0.0.0:"@ + decimal_digits(port as nat)
}

/// The text of the decimal digit `d`.
fn digit_str(d: u16) -> (s: &'static str)
    requires
        d < 10,
    ensures
        s@ == seq![digit_char(d as nat)],
{
    proof {
        reveal_strlit("0");
        reveal_strlit("1");
        reveal_strlit("2");
        reveal_strlit("3");
        reveal_strlit("4");
        reveal_strlit("5");
        reveal_strlit("6");
        reveal_strlit("7");
        reveal_strlit("8");
        reveal_strlit("9");
    }
    match d {
        0 => "0",
        1 => "1",
        2 => "2",
        3 => "3",
        4 => "4",
        5 => "5",
        6 => "6",
        7 => "7",
        8 => "8",
        _ => "9",
    }
}

/// Appends the decimal digits of `n` to `s`, most significant first.
fn push_decimal(s: &mut String, n: u16)
    ensures
        final(s)@ == old(s)@ + decimal_digits(n as nat),
    decreases n,
{
    if n >= 10 {
        push_decimal(s, n / 10);
    }
    s.append(digit_str(n % 10));
    proof {
        if n >= 10 {
            assert(final(s)@ =~= old(s)@ + decimal_digits(n as nat));
        } else {
            assert(final(s)@ =~= old(s)@ + decimal_digits(n as nat));
        }
    }
}

/// The address to listen on every interface at `port`: `0.0.0.0:` and the
/// port's decimal digits.
fn any_interface(port: u16) -> (s: String)
    ensures
        s@ == any_interface_addr(port),
{
    let mut addr = "0.0.0.0:".to_owned();
    push_decimal(&mut addr, port);
    addr
}

pub open spec fn opt_view(o: Option<String>) -> Option<Seq<char>> {
    match o {
        Some(s) => Some(s@),
        None => None,
    }
}

/// The parts of the configuration path under the user's home directory:
/// `$HOME/.config/dshare/config.toml`.
pub open spec fn home_parts(home: Seq<char>) -> Seq<Seq<char>> {
    seq![home, ".config"@, "dshare"@, "config.toml"@]
}

/// The parts of the configuration path under the roaming application data
/// directory: `%APPDATA%\dshare\config.toml`.
pub open spec fn appdata_parts(appdata: Seq<char>) -> Seq<Seq<char>> {
    seq![appdata, "dshare"@, "config.toml"@]
}

/// The parts of the default configuration path, to be joined in order. On
/// Windows the configuration lives under `%APPDATA%\dshare`, and under
/// `$HOME/.config/dshare` only where `APPDATA` is not set; elsewhere it lives
/// under `$HOME/.config/dshare`, and under `%APPDATA%\dshare` only where
/// `HOME` is not set. With neither set it lives in the working directory.
pub open spec fn default_path_parts(
    windows: bool,
    home: Option<Seq<char>>,
    appdata: Option<Seq<char>>,
) -> Seq<Seq<char>> {
    if windows {
        match appdata {
            Some(a) => appdata_parts(a),
            None => match home {
                Some(h) => home_parts(h),
                None => seq!["."@, "config.toml"@],
            },
        }
    } else {
        match home {
            Some(h) => home_parts(h),
            None => match appdata {
                Some(a) => appdata_parts(a),
                None => seq!["."@, "config.toml"@],
            },
        }
    }
}

impl Default for Config {
    fn default() -> (c: Config)
        ensures
            c.role == Role::Server,
            c.bind_addr@ == any_interface_addr(DEFAULT_PORT),
            c.server_addr is None,
            c.layout.server_screen.width == 1920,
            c.layout.server_screen.height == 1080,
            c.layout.peers@.len() == 0,
            c.clipboard_sync,
            c.tls is None,
    {
        Config {
            role: Role::Server,
            bind_addr: any_interface(DEFAULT_PORT),
            server_addr: None,
            layout: Layout::default(),
            clipboard_sync: true,
            tls: None,
        }
    }
}

impl Config {
    /// The parts of the default configuration path on the platform the
    /// program runs on (`windows` says whether it is Windows), given the
    /// values of the `HOME` and `APPDATA` environment variables.
    pub fn default_path(windows: bool, home: Option<String>, appdata: Option<String>) -> (parts: Vec<String>)
        ensures
            parts@.map_values(|s: String| s@) == default_path_parts(
                windows,
                opt_view(home),
                opt_view(appdata),
            ),
    {
        let ghost home_view = opt_view(home);
        let ghost appdata_view = opt_view(appdata);
        let (first, second) = if windows {
            (appdata, home)
        } else {
            (home, appdata)
        };
        let found_dir = first.is_some() || second.is_some();
        let mut parts: Vec<String> = Vec::new();
        match first {
            Some(dir) => {
                parts.push(dir);
                if !windows {
                    parts.push(".config".to_owned());
                }
            },
            None => match second {
                Some(dir) => {
                    parts.push(dir);
                    if windows {
                        parts.push(".config".to_owned());
                    }
                },
                None => {
                    parts.push(".".to_owned());
                },
            },
        }
        if found_dir {
            parts.push("dshare".to_owned());
        }
        parts.push("config.toml".to_owned());
        proof {
            assert(parts@.map_values(|s: String| s@) =~= default_path_parts(
                windows,
                home_view,
                appdata_view,
            ));
        }
        parts
    }

    /// Sets the server address from the text the user typed: empty text
    /// clears it.
    pub fn set_server_addr_text(&mut self, text: String)
        ensures
            final(self).server_addr == (if text@.len() == 0 {
                None
            } else {
                Some(text)
            }),
            final(self).role == old(self).role,
            final(self).bind_addr == old(self).bind_addr,
            final(self).layout == old(self).layout,
            final(self).clipboard_sync == old(self).clipboard_sync,
            final(self).tls == old(self).tls,
    {
        if text.as_str().is_empty() {
            self.server_addr = None;
        } else {
            self.server_addr = Some(text);
        }
    }
}

/// On Windows the configuration lives under `%APPDATA%\dshare` whenever
/// `APPDATA` is set, whatever `HOME` says; elsewhere under
/// `$HOME/.config/dshare` whenever `HOME` is set, whatever `APPDATA` says; its
/// file is always `config.toml`. The digits of a number are the characters
/// `'0'` plus each decimal digit.
pub proof fn lemma_config_path_and_digits(windows: bool, home: Option<Seq<char>>, appdata: Option<Seq<char>>, d: nat)
    ensures
        windows && appdata is Some ==> default_path_parts(windows, home, appdata) == seq![
            appdata.unwrap(),
            seq!['d', 's', 'h', 'a', 'r', 'e'],
            seq!['c', 'o', 'n', 'f', 'i', 'g', '.', 't', 'o', 'm', 'l'],
        ],
        !windows && home is Some ==> default_path_parts(windows, home, appdata) == seq![
            home.unwrap(),
            seq!['.', 'c', 'o', 'n', 'f', 'i', 'g'],
            seq!['d', 's', 'h', 'a', 'r', 'e'],
            seq!['c', 'o', 'n', 'f', 'i', 'g', '.', 't', 'o', 'm', 'l'],
        ],
        default_path_parts(windows, home, appdata).last() == seq!['c', 'o', 'n', 'f', 'i', 'g', '.', 't', 'o', 'm', 'l'],
        d < 10 ==> digit_char(d) as u32 == '0' as u32 + d,
        d >= 10 ==> decimal_digits(d) == decimal_digits(d / 10) + decimal_digits(d % 10),
{
    reveal_strlit("dshare");
    reveal_strlit("config.toml");
    reveal_strlit(".config");
    reveal_strlit(".");
    assert("dshare"@ =~= seq!['d', 's', 'h', 'a', 'r', 'e']);
    assert("config.toml"@ =~= seq!['c', 'o', 'n', 'f', 'i', 'g', '.', 't', 'o', 'm', 'l']);
    assert(".config"@ =~= seq!['.', 'c', 'o', 'n', 'f', 'i', 'g']);
    if windows && appdata is Some {
        assert(default_path_parts(windows, home, appdata) =~= seq![
            appdata.unwrap(),
            seq!['d', 's', 'h', 'a', 'r', 'e'],
            seq!['c', 'o', 'n', 'f', 'i', 'g', '.', 't', 'o', 'm', 'l'],
        ]);
    }
    if !windows && home is Some {
        assert(default_path_parts(windows, home, appdata) =~= seq![
            home.unwrap(),
            seq!['.', 'c', 'o', 'n', 'f', 'i', 'g'],
            seq!['d', 's', 'h', 'a', 'r', 'e'],
            seq!['c', 'o', 'n', 'f', 'i', 'g', '.', 't', 'o', 'm', 'l'],
        ]);
    }
}

} // verus!
