//! What the daemon is told when it is started.
use vstd::prelude::*;

verus! {

/// The arguments of the daemon.
#[derive(Debug)]
pub struct Args {
    /// Path to the SQLite database file
    pub db_path: Option<String>,
    /// Path under which internal data can freely be created and stored
    pub internal_data_dir: Option<String>,
    /// Listening endpoint
    pub endpoint: String,
    /// Directory for storing received files
    pub output_dir: String,
}

/// Where the database lies unless it is said otherwise.
pub const DEFAULT_DB_PATH: &'static str = "filerequest.db";

/// Where clients connect unless it is said otherwise.
pub const DEFAULT_ENDPOINT: &'static str = "tcp:127.0.0.1";

/// Where received files are stored unless it is said otherwise.
pub const DEFAULT_OUTPUT_DIR: &'static str = ".";

/// The configuration that the arguments ask for.
#[derive(Debug)]
pub struct DaemonConfig {
    pub db_path: String,
    pub internal_data_dir: String,
    pub endpoint: String,
    pub output_dir: String,
}

impl Args {
    pub open spec fn database(self) -> Seq<char> {
        match self.db_path {
            Some(path) => path@,
            None => DEFAULT_DB_PATH@,
        }
    }

    /// Where the database lies.
    pub fn database_path(&self) -> (r: String)
        ensures
            r@ == self.database(),
    {
        match &self.db_path {
            Some(path) => path.clone(),
            None => DEFAULT_DB_PATH.to_owned(),
        }
    }

    /// The configuration that the arguments ask for. `parent` is the directory of the database,
    /// which holds internal data unless another directory is named. There is no configuration
    /// where neither is known.
    pub fn config(self, parent: Option<String>) -> (r: Option<DaemonConfig>)
        ensures
            match r {
                Some(config) => config.db_path@ == self.database() && config.endpoint
                    == self.endpoint && config.output_dir == self.output_dir
                    && Some(config.internal_data_dir) == (match self.internal_data_dir {
                    Some(dir) => Some(dir),
                    None => parent,
                }),
                None => self.internal_data_dir is None && parent is None,
            },
    {
        let db_path = self.database_path();
        let internal_data_dir = match self.internal_data_dir {
            Some(dir) => dir,
            None => match parent {
                Some(dir) => dir,
                None => return None,
            },
        };
        Some(
            DaemonConfig {
                db_path,
                internal_data_dir,
                endpoint: self.endpoint,
                output_dir: self.output_dir,
            },
        )
    }
}

/// What is told of events while the daemon runs.
#[derive(Debug)]
pub struct TracingConfig {
    pub with_target: bool,
    pub with_line_number: bool,
    pub max_events_per_span: Option<u32>,
}

impl Default for TracingConfig {
    fn default() -> (r: Self)
        ensures
            r == (TracingConfig {
                with_target: true,
                with_line_number: false,
                max_events_per_span: None,
            }),
    {
        TracingConfig { with_target: true, with_line_number: false, max_events_per_span: None }
    }
}

/// The daemon uses what it is told: the database, the endpoint and the directory that are named, and
/// the directory for internal data that is named, or else that of the database.
pub proof fn law_arguments_are_followed(
    args: Args,
    parent: Option<String>,
    config: Option<DaemonConfig>,
)
    requires
        call_ensures(Args::config, (args, parent), config),
    ensures
        config is None <==> args.internal_data_dir is None && parent is None,
        config matches Some(config) ==> {
            &&& config.endpoint@ == args.endpoint@
            &&& config.output_dir@ == args.output_dir@
            &&& args.db_path matches Some(path) ==> config.db_path@ == path@
            &&& args.db_path is None ==> config.db_path@ == "filerequest.db"@
            &&& args.internal_data_dir matches Some(dir) ==> config.internal_data_dir@ == dir@
            &&& args.internal_data_dir is None ==> (parent matches Some(dir)
                && config.internal_data_dir@ == dir@)
        },
{
}

} // verus!
