//! The gateway's configuration surface: where it listens, how it logs, and
//! how the proxy pool loads and probes its candidates. Reading the file
//! that fills these values is the shell's business; the defaults below are
//! what a missing file means.

use vstd::prelude::*;

verus! {

/// The whole configuration.
#[derive(Debug)]
pub struct Config {
    pub server: Server,
    pub logger: Logger,
    pub proxy: Proxy,
}

/// Where the listener binds, and the service's name.
#[derive(Debug)]
pub struct Server {
    pub name: String,
    pub host: String,
    pub port: u16,
}

/// How verbosely the gateway logs.
#[derive(Debug)]
pub struct Logger {
    pub level: String,
}

/// How the pool behaves: its backing file, per-probe timeout, sweep bounds
/// and the declared (but not core-scheduled) re-check knobs.
#[derive(Debug)]
pub struct Proxy {
    pub proxy_file: String,
    pub timeout: usize,
    pub health_check_interval: usize,
    pub retry_count: usize,
    pub auto_switch: bool,
    pub auto_switch_interval: usize,
    pub max_test_count: usize,
}

impl Default for Config {
    /// The configuration a missing file stands for.
    fn default() -> (r: Self)
        ensures
            r.server.name@ == "proxy_pool"@,
            r.server.host@ == "127.0.0.1"@,
            r.server.port == 9000,
            r.logger.level@ == "info"@,
            r.proxy.proxy_file@ == "proxy.txt"@,
            r.proxy.timeout == 3000,
            r.proxy.health_check_interval == 60,
            r.proxy.retry_count == 3,
            r.proxy.auto_switch == true,
            r.proxy.auto_switch_interval == 300,
            r.proxy.max_test_count == 10,
    {
        Config {
            server: Server {
                name: "proxy_pool".to_owned(),
                host: "127.0.0.1".to_owned(),
                port: 9000,
            },
            logger: Logger { level: "info".to_owned() },
            proxy: Proxy {
                proxy_file: "proxy.txt".to_owned(),
                timeout: 3000,
                health_check_interval: 60,
                retry_count: 3,
                auto_switch: true,
                auto_switch_interval: 300,
                max_test_count: 10,
            },
        }
    }
}

} // verus!
