//! The server's own configuration record, assembled from environment
//! variable values handed in as plain optional strings.

use vstd::prelude::*;

use crate::text::{concat2, concat3, join_strings, join_with};

verus! {

/// Configuration of the management server.
#[derive(Clone, Debug)]
pub struct Config {
    pub config_path: String,
    pub pid_file: String,
    pub grpc_host: String,
    pub grpc_port: String,
    pub log_level: String,
}

/// Error returned when required configuration variables are missing; holds
/// the names of all of them.
#[derive(Debug)]
pub struct ConfigError {
    missing_vars: Vec<String>,
}

/// The names of the required variables that are unset, in their fixed order.
pub open spec fn missing_names(
    config_path_set: bool,
    pid_file_set: bool,
    grpc_port_set: bool,
) -> Seq<Seq<char>> {
    (if !config_path_set {
        seq!["STUNNEL_CONF_PATH"@]
    } else {
        Seq::<Seq<char>>::empty()
    }) + (if !pid_file_set {
        seq!["STUNNEL_PID_FILE"@]
    } else {
        Seq::<Seq<char>>::empty()
    }) + (if !grpc_port_set {
        seq!["GRPC_PORT"@]
    } else {
        Seq::<Seq<char>>::empty()
    })
}

/// The message a `ConfigError` prints for the variable names `vars`.
pub open spec fn config_error_message(vars: Seq<Seq<char>>) -> Seq<char> {
    "Missing required environment variables: "@ + join_with(vars, ", "@)
}

impl ConfigError {
    /// The names of the missing variables.
    pub closed spec fn missing(&self) -> Seq<Seq<char>> {
        self.missing_vars.deep_view()
    }

    /// The error text: the missing variable names, joined after a fixed
    /// prefix.
    pub fn message(&self) -> (r: String)
        ensures
            r@ == config_error_message(self.missing()),
    {
        let joined = join_strings(&self.missing_vars, ", ");
        concat2("Missing required environment variables: ", joined.as_str())
    }
}

impl Config {
    /// Assembles the configuration from the environment variable values:
    /// `None` stands for an unset variable. The first three are required and
    /// every missing one is reported; the host and the log level fall back
    /// to their defaults.
    pub fn from_parts(
        config_path: Option<String>,
        pid_file: Option<String>,
        grpc_port: Option<String>,
        grpc_host: Option<String>,
        log_level: Option<String>,
    ) -> (r: Result<Config, ConfigError>)
        ensures
            r is Ok <==> (config_path is Some && pid_file is Some && grpc_port is Some),
            r is Ok ==> {
                &&& r->Ok_0.config_path@ == config_path->Some_0@
                &&& r->Ok_0.pid_file@ == pid_file->Some_0@
                &&& r->Ok_0.grpc_port@ == grpc_port->Some_0@
                &&& r->Ok_0.grpc_host@ == (if grpc_host is Some {
                    grpc_host->Some_0@
                } else {
                    "0.0.0.0"@
                })
                &&& r->Ok_0.log_level@ == (if log_level is Some {
                    log_level->Some_0@
                } else {
                    "info"@
                })
            },
            r is Err ==> r->Err_0.missing() == missing_names(
                config_path is Some,
                pid_file is Some,
                grpc_port is Some,
            ),
    {
        let mut missing_vars: Vec<String> = Vec::new();
        let ghost acc0 = Seq::<Seq<char>>::empty();
        proof {
            assert(missing_vars.deep_view() =~= acc0);
        }
        if config_path.is_none() {
            missing_vars.push("STUNNEL_CONF_PATH".to_owned());
        }
        let ghost acc1 = acc0 + (if config_path is Some {
            Seq::<Seq<char>>::empty()
        } else {
            seq!["STUNNEL_CONF_PATH"@]
        });
        proof {
            assert(missing_vars.deep_view() =~= acc1);
        }
        if pid_file.is_none() {
            missing_vars.push("STUNNEL_PID_FILE".to_owned());
        }
        let ghost acc2 = acc1 + (if pid_file is Some {
            Seq::<Seq<char>>::empty()
        } else {
            seq!["STUNNEL_PID_FILE"@]
        });
        proof {
            assert(missing_vars.deep_view() =~= acc2);
        }
        if grpc_port.is_none() {
            missing_vars.push("GRPC_PORT".to_owned());
        }
        proof {
            assert(missing_vars.deep_view() =~= acc2 + (if grpc_port is Some {
                Seq::<Seq<char>>::empty()
            } else {
                seq!["GRPC_PORT"@]
            }));
        }

        match (config_path, pid_file, grpc_port) {
            (Some(cp), Some(pf), Some(gp)) => {
                let host = match grpc_host {
                    Some(h) => h,
                    None => "0.0.0.0".to_owned(),
                };
                let level = match log_level {
                    Some(l) => l,
                    None => "info".to_owned(),
                };
                Ok(
                    Config {
                        config_path: cp,
                        pid_file: pf,
                        grpc_host: host,
                        grpc_port: gp,
                        log_level: level,
                    },
                )
            },
            _ => {
                proof {
                    assert(missing_vars.deep_view() =~= missing_names(
                        config_path is Some,
                        pid_file is Some,
                        grpc_port is Some,
                    ));
                }
                Err(ConfigError { missing_vars })
            },
        }
    }

    /// The address the management server binds: `host:port`.
    pub fn get_grpc_address(&self) -> (r: String)
        ensures
            r@ == self.grpc_host@ + ":"@ + self.grpc_port@,
    {
        concat3(self.grpc_host.as_str(), ":", self.grpc_port.as_str())
    }
}

} // verus!
