use crate::error::KindleError;
use vstd::prelude::*;

verus! {

/// The settings of one run, loaded before the run starts.
pub struct Config {
    pub callback_uri: String,
    pub ebook_to_send_directory: String,
    pub ebook_sent_directory: String,
    pub receivers: Vec<String>,
    pub azure: AzureConfig,
}

/// The identity provider registration.
pub struct AzureConfig {
    pub client_id: String,
    pub client_secret: String,
    pub tenant_id: String,
}

pub open spec fn config_path_text() -> Seq<char> {
    "./config.json"@
}

/// Where the settings are read from.
pub fn config_path() -> (r: &'static str)
    ensures
        r@ == config_path_text(),
{
    "./config.json"
}

pub struct ConfigService {}

impl ConfigService {
    pub fn new() -> (r: Self) {
        ConfigService {}
    }

    /// Takes the outcome of loading the settings file at `config_path`: the
    /// settings, or the cause of the failure, which is reported with the path.
    pub fn read_config(loaded: Result<Config, String>) -> (r: Result<Config, KindleError>)
        ensures
            r is Ok <==> loaded is Ok,
            loaded matches Ok(c) ==> r == Ok::<Config, KindleError>(c),
            loaded matches Err(m) ==> (r matches Err(e) && e.message@
                == "Error reading configuration file ("@ + config_path_text() + "): "@ + m@),
    {
        match loaded {
            Ok(c) => Ok(c),
            Err(m) => {
                let mut message = String::from_str("Error reading configuration file (");
                message.append(config_path());
                message.append("): ");
                message.append(&m);
                Err(KindleError { message })
            },
        }
    }
}

} // verus!
