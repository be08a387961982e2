//! Starting lazymc: preparing RCON and the server's `server.properties` changes.
use rand::Rng;
use vstd::prelude::*;
use vstd::string::StrSliceExecFns;

use crate::config::Config;
use crate::net::spec_ip_text;
use crate::mc::server_properties::{changes_view, distinct_keys};
use crate::util::error::{ErrorHints, ErrorHintsBuilder};
use crate::util::text::{decimal, spec_decimal, spec_trim, texts, trim};

verus! {

/// RCON randomized password length.
pub const RCON_PASSWORD_LENGTH: usize = 32;

/// Whether a character is an ASCII letter or digit.
pub open spec fn is_alphanumeric(c: char) -> bool {
    ('A' <= c && c <= 'Z') || ('a' <= c && c <= 'z') || ('0' <= c && c <= '9')
}

/// One random ASCII letter or digit.
///
/// Samples `rand::distributions::Alphanumeric` with the thread's random generator, as a
/// one-character string. Claimed, as rand's source shows: the character is one of
/// `A`-`Z`, `a`-`z`, `0`-`9`. Which one is left open.
#[verifier::external_body]
fn random_alphanumeric() -> (res: String)
    ensures
        res@.len() == 1,
        is_alphanumeric(res@[0]),
{
    char::from(rand::thread_rng().sample(rand::distributions::Alphanumeric)).to_string()
}

/// Generate secure random password: `RCON_PASSWORD_LENGTH` random ASCII letters and digits.
pub fn generate_random_password() -> (res: String)
    ensures
        res@.len() == RCON_PASSWORD_LENGTH,
        forall|i: int| 0 <= i < res@.len() ==> is_alphanumeric(#[trigger] res@[i]),
{
    let mut password = String::new();
    let mut n: usize = 0;
    while n < RCON_PASSWORD_LENGTH
        invariant
            n <= RCON_PASSWORD_LENGTH,
            password@.len() == n,
            forall|i: int| 0 <= i < password@.len() ==> is_alphanumeric(#[trigger] password@[i]),
        decreases RCON_PASSWORD_LENGTH - n,
    {
        let c = random_alphanumeric();
        let ghost before = password@;
        password.append(c.as_str());
        proof {
            assert forall|i: int| 0 <= i < password@.len() implies is_alphanumeric(
                #[trigger] password@[i],
            ) by {
                if i < before.len() {
                    assert(password@[i] == before[i]);
                } else {
                    assert(password@[i] == c@[0]);
                }
            }
        }
        n = n + 1;
    }
    password
}

/// Why RCON cannot be used as configured.
#[derive(Debug, Clone, Copy, PartialEq, Eq, Structural)]
pub enum RconError {
    /// RCON is disabled on Windows, where it is needed.
    WindowsNeedsRcon,
    /// RCON listens on the server's port.
    SamePort,
    /// No password, and randomization is off.
    EmptyPassword,
    /// Password randomization without `server.properties` rewrite.
    RewriteDisabled,
}

impl RconError {
    /// The error message shown to the user.
    pub fn message(&self) -> (res: String)
        ensures
            res@ == match *self {
                RconError::WindowsNeedsRcon => "RCON must be enabled on Windows"@,
                RconError::SamePort => "RCON port cannot be the same as the server"@,
                RconError::EmptyPassword => "RCON password can't be empty, or enable randomization"@,
                RconError::RewriteDisabled => "You must enable server.properties rewrite to use RCON password randomization"@,
            },
    {
        match self {
            RconError::WindowsNeedsRcon => String::from_str("RCON must be enabled on Windows"),
            RconError::SamePort => String::from_str("RCON port cannot be the same as the server"),
            RconError::EmptyPassword => String::from_str(
                "RCON password can't be empty, or enable randomization",
            ),
            RconError::RewriteDisabled => String::from_str(
                "You must enable server.properties rewrite to use RCON password randomization",
            ),
        }
    }

    /// The hints shown with the error: what to change in the config file.
    pub fn hints(&self) -> (res: ErrorHints)
        ensures
            texts(res.info@) == match *self {
                RconError::WindowsNeedsRcon => seq!["change 'rcon.enabled' to 'true' in the config file"@],
                RconError::SamePort => seq!["change 'rcon.port' in the config file"@],
                RconError::EmptyPassword => seq![
                    "change 'rcon.randomize_password' to 'true' in the config file"@,
                    "or change 'rcon.password' in the config file"@,
                ],
                RconError::RewriteDisabled => seq![
                    "change 'advanced.rewrite_server_properties' to 'true' in the config file"@,
                ],
            },
            !res.config && !res.config_generate && !res.config_test && res.verbose && res.help,
    {
        let builder = ErrorHintsBuilder::default();
        let builder = match self {
            RconError::WindowsNeedsRcon => builder.add_info(
                String::from_str("change 'rcon.enabled' to 'true' in the config file"),
            ),
            RconError::SamePort => builder.add_info(
                String::from_str("change 'rcon.port' in the config file"),
            ),
            RconError::EmptyPassword => builder.add_info(
                String::from_str("change 'rcon.randomize_password' to 'true' in the config file"),
            ).add_info(String::from_str("or change 'rcon.password' in the config file")),
            RconError::RewriteDisabled => builder.add_info(
                String::from_str(
                    "change 'advanced.rewrite_server_properties' to 'true' in the config file",
                ),
            ),
        };
        builder.build()
    }
}

/// What RCON preparation gives for a configuration: an error, or whether the password is
/// to be randomized.
pub open spec fn spec_prepare_rcon(config: &Config, windows: bool) -> Result<bool, RconError> {
    if windows && !config.rcon.enabled {
        Err(RconError::WindowsNeedsRcon)
    } else if !config.rcon.enabled {
        Ok(false)
    } else if config.server.address.port == config.rcon.port {
        Err(RconError::SamePort)
    } else if spec_trim(config.rcon.password@).len() == 0 && !config.rcon.randomize_password {
        Err(RconError::EmptyPassword)
    } else if config.rcon.randomize_password && !config.advanced.rewrite_server_properties {
        Err(RconError::RewriteDisabled)
    } else {
        Ok(config.rcon.randomize_password)
    }
}

/// Prepare RCON: check its configuration, and randomize its password if configured.
///
/// `windows` tells whether this runs on Windows, where RCON must be enabled. With RCON
/// disabled nothing else is checked; otherwise its port must differ from the server's, its
/// password must be set or randomized, and randomization needs `server.properties`
/// rewrite. On success a randomized password is a fresh one of `RCON_PASSWORD_LENGTH`
/// letters and digits; nothing else in the configuration changes, on error nothing does.
pub fn prepare_rcon(config: &mut Config, windows: bool) -> (res: Result<(), RconError>)
    ensures
        match spec_prepare_rcon(old(config), windows) {
            Err(e) => res == Err::<(), RconError>(e) && *final(config) == *old(config),
            Ok(false) => res is Ok && *final(config) == *old(config),
            Ok(true) => {
                &&& res is Ok
                &&& final(config).rcon.password@.len() == RCON_PASSWORD_LENGTH
                &&& forall|i: int|
                    0 <= i < final(config).rcon.password@.len() ==> is_alphanumeric(
                        #[trigger] final(config).rcon.password@[i],
                    )
                &&& *final(config) == (Config {
                    rcon: crate::config::Rcon { password: final(config).rcon.password, ..old(config).rcon },
                    ..*old(config)
                })
            },
        },
{
    if windows && !config.rcon.enabled {
        return Err(RconError::WindowsNeedsRcon);
    }
    if !config.rcon.enabled {
        return Ok(());
    }
    if config.server.address.port == config.rcon.port {
        return Err(RconError::SamePort);
    }
    if trim(config.rcon.password.as_str()).unicode_len() == 0 && !config.rcon.randomize_password {
        return Err(RconError::EmptyPassword);
    }
    if config.rcon.randomize_password {
        if !config.advanced.rewrite_server_properties {
            return Err(RconError::RewriteDisabled);
        }
        config.rcon.password = generate_random_password();
    }
    Ok(())
}

/// What to do with the server's `server.properties` file on start.
#[derive(Debug)]
pub enum PropertiesPlan {
    /// Rewrite is disabled in the configuration.
    Disabled,
    /// No server directory is configured.
    NoDirectory,
    /// Rewrite the file in this directory with these changes.
    Rewrite(String, Vec<(String, String)>),
}

/// One change, as key and value texts.
pub open spec fn change(key: &str, value: Seq<char>) -> Seq<(Seq<char>, Seq<char>)> {
    seq![(key@, value)]
}

/// The `server.properties` changes for a configuration: the server address and port,
/// status and query port; proxy connections allowed when the server is not on a loopback
/// address; and the RCON port and password when RCON is enabled.
pub open spec fn spec_property_changes(config: &Config) -> Seq<(Seq<char>, Seq<char>)> {
    let port = spec_decimal(config.server.address.port as nat);
    change("server-ip", spec_ip_text(config.server.address.ip)) + change("server-port", port) + change("enable-status", "true"@)
        + change("query.port", port) + (if !config.server.address.ip.spec_is_loopback() {
        change("prevent-proxy-connections", "false"@)
    } else {
        seq![]
    }) + (if config.rcon.enabled {
        change("rcon.port", spec_decimal(config.rcon.port as nat)) + change(
            "rcon.password",
            config.rcon.password@,
        ) + change("enable-rcon", "true"@)
    } else {
        seq![]
    })
}

/// Append one change.
fn push_change(changes: &mut Vec<(String, String)>, key: &str, value: String)
    ensures
        changes_view(final(changes)@) == changes_view(old(changes)@) + change(key, value@),
{
    changes.push((String::from_str(key), value));
    proof {
        assert(changes_view(final(changes)@) =~= changes_view(old(changes)@) + change(key, value@));
    }
}

/// Plan the rewrite of the server's `server.properties` file with the server's address
/// and RCON settings.
pub fn server_properties_plan(config: &Config) -> (res: PropertiesPlan)
    ensures
        !config.advanced.rewrite_server_properties ==> res is Disabled,
        config.advanced.rewrite_server_properties && config.server.directory is None ==> res is NoDirectory,
        config.advanced.rewrite_server_properties && config.server.directory is Some ==> (res matches PropertiesPlan::Rewrite(dir, changes) && dir@ == config.server.directory->Some_0@
            && changes_view(changes@) == spec_property_changes(config)
            && distinct_keys(changes_view(changes@))),
{
    if !config.advanced.rewrite_server_properties {
        return PropertiesPlan::Disabled;
    }
    let dir = match &config.server.directory {
        Some(dir) => dir.clone(),
        None => {
            return PropertiesPlan::NoDirectory;
        },
    };
    let port = decimal(config.server.address.port as u32);
    let mut changes: Vec<(String, String)> = Vec::new();
    push_change(&mut changes, "server-ip", config.server.address.ip.to_text());
    push_change(&mut changes, "server-port", port.clone());
    push_change(&mut changes, "enable-status", String::from_str("true"));
    push_change(&mut changes, "query.port", port);
    let ghost base = changes_view(changes@);
    if !config.server.address.ip.is_loopback() {
        push_change(&mut changes, "prevent-proxy-connections", String::from_str("false"));
    }
    let ghost with_proxy = changes_view(changes@);
    if config.rcon.enabled {
        push_change(&mut changes, "rcon.port", decimal(config.rcon.port as u32));
        push_change(&mut changes, "rcon.password", config.rcon.password.clone());
        push_change(&mut changes, "enable-rcon", String::from_str("true"));
    }
    proof {
        reveal_strlit("server-ip");
        reveal_strlit("server-port");
        reveal_strlit("enable-status");
        reveal_strlit("query.port");
        reveal_strlit("prevent-proxy-connections");
        reveal_strlit("rcon.port");
        reveal_strlit("rcon.password");
        reveal_strlit("enable-rcon");
        let cv = changes_view(changes@);
        assert(cv =~= spec_property_changes(config));
        assert forall|a: int, b: int|
            0 <= a < cv.len() && 0 <= b < cv.len() && a != b implies #[trigger] cv[a].0
            != #[trigger] cv[b].0 by {
            if cv[a].0.len() == cv[b].0.len() {
                assert(cv[a].0[0] != cv[b].0[0]);
            }
        }
    }
    PropertiesPlan::Rewrite(dir, changes)
}

/// The planned `server.properties` changes set what lazymc connects with: the server's port
/// (as server and query port) and, with RCON enabled, the configured RCON port and password
/// and RCON itself.
pub proof fn lemma_property_changes_carry_config(config: &Config)
    ensures
        spec_property_changes(config).contains(
            ("server-port"@, spec_decimal(config.server.address.port as nat)),
        ),
        spec_property_changes(config).contains(
            ("query.port"@, spec_decimal(config.server.address.port as nat)),
        ),
        spec_property_changes(config).contains(("server-ip"@, spec_ip_text(config.server.address.ip))),
        config.rcon.enabled ==> spec_property_changes(config).contains(
            ("rcon.password"@, config.rcon.password@),
        ),
        config.rcon.enabled ==> spec_property_changes(config).contains(
            ("rcon.port"@, spec_decimal(config.rcon.port as nat)),
        ),
        config.rcon.enabled ==> spec_property_changes(config).contains(("enable-rcon"@, "true"@)),
{
    let c = spec_property_changes(config);
    let port = spec_decimal(config.server.address.port as nat);
    assert(c[0] == ("server-ip"@, spec_ip_text(config.server.address.ip)));
    assert(c[1] == ("server-port"@, port));
    assert(c[3] == ("query.port"@, port));
    if config.rcon.enabled {
        let n = c.len() as int;
        assert(c[n - 3] == ("rcon.port"@, spec_decimal(config.rcon.port as nat)));
        assert(c[n - 2] == ("rcon.password"@, config.rcon.password@));
        assert(c[n - 1] == ("enable-rcon"@, "true"@));
    }
}

} // verus!
