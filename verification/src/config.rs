//! The configuration of a run, built from the values given on the command line.

use vstd::prelude::*;

use crate::validate::{bounded_number, parse_unsigned};

verus! {

/// Why the command-line values do not make a configuration.
#[derive(Debug, Clone, Copy, PartialEq, Eq, Structural)]
pub enum ConfigurationError {
    EmptyHostname,
    EmptyPort,
    WrongPort,
    EmptyDatabase,
    EmptyUsername,
    EmptyPassword,
    EmptyNWorkers,
    WrongNWorkers,
    EmptySuites,
}

pub type ConfigurationResult<T> = Result<T, ConfigurationError>;

pub open spec fn configuration_error_text(e: ConfigurationError) -> Seq<char> {
    match e {
        ConfigurationError::EmptyHostname => "Empty host name"@,
        ConfigurationError::EmptyPort => "Empty port"@,
        ConfigurationError::WrongPort => "Wrong port"@,
        ConfigurationError::EmptyDatabase => "Empty database"@,
        ConfigurationError::EmptyUsername => "Empty user name"@,
        ConfigurationError::EmptyPassword => "Empty password"@,
        ConfigurationError::EmptyNWorkers => "Empty number of workers"@,
        ConfigurationError::WrongNWorkers => "Wrong number of workers"@,
        ConfigurationError::EmptySuites => "Empty suites"@,
    }
}

impl ConfigurationError {
    /// The port value is not a port number.
    pub fn wrong_port() -> (e: ConfigurationError)
        ensures
            e == ConfigurationError::WrongPort,
    {
        ConfigurationError::WrongPort
    }

    /// The number of workers is not a number.
    pub fn wrong_n_workers() -> (e: ConfigurationError)
        ensures
            e == ConfigurationError::WrongNWorkers,
    {
        ConfigurationError::WrongNWorkers
    }

    /// How the error prints.
    pub fn message(&self) -> (s: &'static str)
        ensures
            s@ == configuration_error_text(*self),
    {
        match self {
            ConfigurationError::EmptyHostname => "Empty host name",
            ConfigurationError::EmptyPort => "Empty port",
            ConfigurationError::WrongPort => "Wrong port",
            ConfigurationError::EmptyDatabase => "Empty database",
            ConfigurationError::EmptyUsername => "Empty user name",
            ConfigurationError::EmptyPassword => "Empty password",
            ConfigurationError::EmptyNWorkers => "Empty number of workers",
            ConfigurationError::WrongNWorkers => "Wrong number of workers",
            ConfigurationError::EmptySuites => "Empty suites",
        }
    }
}

/// The values given on the command line; `None` for a value not given.
#[derive(Debug, Clone)]
pub struct Arguments {
    pub hostname: Option<String>,
    pub port: Option<String>,
    pub database: Option<String>,
    pub username: Option<String>,
    pub password: Option<String>,
    pub n_workers: Option<String>,
    pub recursive: bool,
    pub extensions: Option<Vec<String>>,
    pub filter: Option<String>,
    pub text_mode: bool,
    pub suites: Option<Vec<String>>,
}

/// Where to find the database, how to run, and which suites to run.
#[derive(Debug)]
pub struct Configuration {
    pub hostname: String,
    pub port: u16,
    pub database: String,
    pub username: String,
    pub password: String,
    pub n_workers: usize,
    pub recursive: bool,
    pub extensions: Option<Vec<String>>,
    pub filter: Option<String>,
    pub text_mode: bool,
    pub suites: Vec<String>,
}

/// The first value that is missing or wrong, in the order hostname, port, database,
/// user name, password, number of workers, suites; `None` when every value is good.
pub open spec fn configuration_problem(args: Arguments) -> Option<ConfigurationError> {
    if args.hostname is None {
        Some(ConfigurationError::EmptyHostname)
    } else if args.port is None {
        Some(ConfigurationError::EmptyPort)
    } else if bounded_number(args.port->0@, 65535) is None {
        Some(ConfigurationError::WrongPort)
    } else if args.database is None {
        Some(ConfigurationError::EmptyDatabase)
    } else if args.username is None {
        Some(ConfigurationError::EmptyUsername)
    } else if args.password is None {
        Some(ConfigurationError::EmptyPassword)
    } else if args.n_workers is None {
        Some(ConfigurationError::EmptyNWorkers)
    } else if bounded_number(args.n_workers->0@, usize::MAX as nat) is None {
        Some(ConfigurationError::WrongNWorkers)
    } else if args.suites is None {
        Some(ConfigurationError::EmptySuites)
    } else {
        None
    }
}

impl Configuration {
    /// Builds the configuration from the command-line values.
    pub fn from_arguments(args: Arguments) -> (r: ConfigurationResult<Configuration>)
        ensures
            configuration_problem(args) matches Some(e) ==> r == Err::<Configuration, ConfigurationError>(e),
            configuration_problem(args) is None ==> (r matches Ok(c) && {
                &&& c.hostname == args.hostname->0
                &&& Some(c.port as nat) == bounded_number(args.port->0@, 65535)
                &&& c.database == args.database->0
                &&& c.username == args.username->0
                &&& c.password == args.password->0
                &&& Some(c.n_workers as nat) == bounded_number(args.n_workers->0@, usize::MAX as nat)
                &&& c.recursive == args.recursive
                &&& c.extensions == args.extensions
                &&& c.filter == args.filter
                &&& c.text_mode == args.text_mode
                &&& c.suites == args.suites->0
            }),
    {
        let hostname = match args.hostname {
            Some(h) => h,
            None => return Err(ConfigurationError::EmptyHostname),
        };
        let port = match args.port {
            Some(p) => match parse_unsigned(p.as_str(), 65535) {
                Some(v) => v as u16,
                None => return Err(ConfigurationError::wrong_port()),
            },
            None => return Err(ConfigurationError::EmptyPort),
        };
        let database = match args.database {
            Some(d) => d,
            None => return Err(ConfigurationError::EmptyDatabase),
        };
        let username = match args.username {
            Some(u) => u,
            None => return Err(ConfigurationError::EmptyUsername),
        };
        let password = match args.password {
            Some(p) => p,
            None => return Err(ConfigurationError::EmptyPassword),
        };
        let n_workers = match args.n_workers {
            Some(n) => match parse_unsigned(n.as_str(), usize::MAX as u64) {
                Some(v) => v as usize,
                None => return Err(ConfigurationError::wrong_n_workers()),
            },
            None => return Err(ConfigurationError::EmptyNWorkers),
        };
        let suites = match args.suites {
            Some(s) => s,
            None => return Err(ConfigurationError::EmptySuites),
        };
        Ok(Configuration {
            hostname,
            port,
            database,
            username,
            password,
            n_workers,
            recursive: args.recursive,
            extensions: args.extensions,
            filter: args.filter,
            text_mode: args.text_mode,
            suites,
        })
    }

    pub fn hostname(&self) -> (s: &String)
        ensures
            s == &self.hostname,
    {
        &self.hostname
    }

    pub fn port(&self) -> (p: u16)
        ensures
            p == self.port,
    {
        self.port
    }

    pub fn database(&self) -> (s: &String)
        ensures
            s == &self.database,
    {
        &self.database
    }

    pub fn username(&self) -> (s: &String)
        ensures
            s == &self.username,
    {
        &self.username
    }

    pub fn password(&self) -> (s: &String)
        ensures
            s == &self.password,
    {
        &self.password
    }

    pub fn n_workers(&self) -> (n: usize)
        ensures
            n == self.n_workers,
    {
        self.n_workers
    }

    pub fn recursive(&self) -> (b: bool)
        ensures
            b == self.recursive,
    {
        self.recursive
    }

    pub fn extensions(&self) -> (e: Option<&Vec<String>>)
        ensures
            e matches Some(v) ==> self.extensions == Some(*v),
            e is None <==> self.extensions is None,
    {
        self.extensions.as_ref()
    }

    pub fn filter(&self) -> (f: Option<&String>)
        ensures
            f matches Some(v) ==> self.filter == Some(*v),
            f is None <==> self.filter is None,
    {
        self.filter.as_ref()
    }

    pub fn text_mode(&self) -> (b: bool)
        ensures
            b == self.text_mode,
    {
        self.text_mode
    }

    pub fn suites(&self) -> (s: &Vec<String>)
        ensures
            s == &self.suites,
    {
        &self.suites
    }
}

} // verus!
