//! Connection resolution for the controller front end: decide which port
//! and token to use from explicit flags and from discovery files the
//! bridge writes at startup. Reading the files is the caller's business;
//! the decisions here work on their parsed contents.

use vstd::prelude::*;

use crate::DEFAULT_PORT;

verus! {

/// The port to use: the explicit flag wins over the fallback.
pub open spec fn port_or(explicit: Option<u16>, fallback: u16) -> u16 {
    match explicit {
        Some(p) => p,
        None => fallback,
    }
}

/// The connection parameters a discovery file yields: its `port` number
/// (taken modulo the port range, as a raw wire number) and its `token`
/// string, or nothing when either field is missing.
pub fn discovery_fields(port: Option<u64>, token: Option<String>) -> (r: Option<(u16, String)>)
    ensures
        match r {
            Some(pt) => {
                &&& port matches Some(p) && pt.0 == p as u16
                &&& token matches Some(t) && pt.1 == t
            },
            None => port is None || token is None,
        },
{
    match (port, token) {
        (Some(p), Some(t)) => Some((p as u16, t)),
        _ => None,
    }
}

/// What `resolve_connection` decides, given what was found on disk.
pub open spec fn resolve_spec(
    cli_port: Option<u16>,
    cli_token: Option<Seq<char>>,
    app: Option<Seq<char>>,
    app_file: Option<(u16, Seq<char>)>,
    scan_count: nat,
    single: Option<(u16, Seq<char>)>,
) -> Result<(u16, Option<Seq<char>>), Seq<char>> {
    if cli_token is Some {
        Ok((port_or(cli_port, DEFAULT_PORT), cli_token))
    } else if app is Some {
        match app_file {
            Some((p, t)) => Ok((port_or(cli_port, p), Some(t))),
            None => Err("no discovery file for app '"@ + app->0 + "'"@),
        }
    } else {
        match single {
            Some((p, t)) => if scan_count == 1 {
                Ok((port_or(cli_port, p), Some(t)))
            } else if scan_count > 1 {
                Err("multiple apps running - specify --app <identifier>"@)
            } else {
                Ok((port_or(cli_port, DEFAULT_PORT), None))
            },
            None => if scan_count > 1 {
                Err("multiple apps running - specify --app <identifier>"@)
            } else {
                Ok((port_or(cli_port, DEFAULT_PORT), None))
            },
        }
    }
}

/// Resolve connection parameters from flags and discovery results.
///
/// An explicit token selects manual mode outright. With `--app`, the
/// parsed discovery file of that app decides, and its absence is an
/// error. Otherwise a directory scan decides: exactly one discovery file
/// that parses is used; several files demand `--app`; none, or one that
/// does not parse, falls back to the default port with no token. An
/// explicit port always overrides a discovered one.
///
/// `app_file` is the parsed discovery file of the requested app;
/// `scan_count` how many discovery files the scan found; `single` the
/// parsed contents of the single file, where there was exactly one.
pub fn resolve_connection(
    cli_port: Option<u16>,
    cli_token: Option<String>,
    app: Option<String>,
    app_file: Option<(u16, String)>,
    scan_count: usize,
    single: Option<(u16, String)>,
) -> (r: Result<(u16, Option<String>), String>)
    ensures
        ({
            let spec_r = resolve_spec(
                cli_port,
                match cli_token {
                    Some(t) => Some(t@),
                    None => None,
                },
                match app {
                    Some(a) => Some(a@),
                    None => None,
                },
                match app_file {
                    Some(pt) => Some((pt.0, pt.1@)),
                    None => None,
                },
                scan_count as nat,
                match single {
                    Some(pt) => Some((pt.0, pt.1@)),
                    None => None,
                },
            );
            match r {
                Ok((p, t)) => spec_r matches Ok(st) && st.0 == p && st.1 == (match t {
                    Some(tok) => Some(tok@),
                    None => None,
                }),
                Err(m) => spec_r matches Err(sm) && sm == m@,
            }
        }),
{
    if cli_token.is_some() {
        let p = match cli_port {
            Some(p) => p,
            None => DEFAULT_PORT,
        };
        return Ok((p, cli_token));
    }
    if let Some(a) = app {
        return match app_file {
            Some((p, t)) => {
                let port = match cli_port {
                    Some(q) => q,
                    None => p,
                };
                Ok((port, Some(t)))
            },
            None => {
                let mut m = String::new();
                m.append("no discovery file for app '");
                m.append(a.as_str());
                m.append("'");
                Err(m)
            },
        };
    }
    if scan_count == 1 {
        if let Some((p, t)) = single {
            let port = match cli_port {
                Some(q) => q,
                None => p,
            };
            return Ok((port, Some(t)));
        }
    }
    if scan_count > 1 {
        return Err(String::from_str("multiple apps running - specify --app <identifier>"));
    }
    let p = match cli_port {
        Some(p) => p,
        None => DEFAULT_PORT,
    };
    Ok((p, None))
}

} // verus!
