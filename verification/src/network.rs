use vstd::prelude::*;
use vstd::string::*;

verus! {

/// The peer-to-peer networks that the application can run against.
#[derive(Debug, Clone, Copy, PartialEq, Eq, Structural)]
pub enum Network {
    MainNet,
    StageNet,
    NextNet,
    LocalNet,
    Igor,
    Esmeralda,
}

impl Network {
    /// The lower-case name of the network, as it appears in directory names.
    pub open spec fn key(self) -> Seq<char> {
        match self {
            Network::MainNet => "mainnet"@,
            Network::StageNet => "stagenet"@,
            Network::NextNet => "nextnet"@,
            Network::LocalNet => "localnet"@,
            Network::Igor => "igor"@,
            Network::Esmeralda => "esmeralda"@,
        }
    }

    pub fn as_key_str(self) -> (r: &'static str)
        ensures
            r@ == self.key(),
    {
        match self {
            Network::MainNet => "mainnet",
            Network::StageNet => "stagenet",
            Network::NextNet => "nextnet",
            Network::LocalNet => "localnet",
            Network::Igor => "igor",
            Network::Esmeralda => "esmeralda",
        }
    }

    /// The network that this process runs against.
    ///
    /// Trusted: calls `tari_common::configuration::Network::get_current_or_user_setting_or_default`,
    /// which reads what the process has set, else the `TARI_NETWORK` environment
    /// variable, else the built-in default. The answer depends on the process and
    /// its environment, so nothing is claimed of it but its type.
    #[verifier::external_body]
    pub(crate) fn current() -> (r: Network) {
        match tari_common::configuration::Network::get_current_or_user_setting_or_default() {
            tari_common::configuration::Network::MainNet => Network::MainNet,
            tari_common::configuration::Network::StageNet => Network::StageNet,
            tari_common::configuration::Network::NextNet => Network::NextNet,
            tari_common::configuration::Network::LocalNet => Network::LocalNet,
            tari_common::configuration::Network::Igor => Network::Igor,
            tari_common::configuration::Network::Esmeralda => Network::Esmeralda,
        }
    }
}

} // verus!
