use vstd::prelude::*;

verus! {

/// Runtime configuration: the address the command listener binds, and the
/// index of the output port to open, if one is chosen ahead of time.
#[derive(Debug, Clone)]
pub struct Config {
    pub listen_address: String,
    pub midi_port: Option<usize>,
}

/// The configuration used when none can be read from disk.
pub fn default_config() -> (r: Config)
    ensures
        r.listen_address@ == "127.0.0.1:10009"@,
        r.midi_port == Some(0usize),
{
    Config { listen_address: "127.0.0.1:10009".to_string(), midi_port: Some(0) }
}

} // verus!
