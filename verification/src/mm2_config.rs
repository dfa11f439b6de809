//! The start-up configuration handed to the MarketMaker 2 daemon (its
//! `MM2.json` file).

use vstd::prelude::*;
use vstd::string::*;

verus! {

/// The network the daemon joins.
pub const MM2_NETID: u16 = 9999;

/// The fields of `MM2.json`.
pub struct Mm2Json {
    pub gui: String,
    pub netid: u16,
    pub rpc_password: String,
    pub passphrase: String,
    pub userhome: String,
}

/// `cfg` is the configuration for the given RPC password, wallet passphrase
/// and home directory: the front end names itself "MM2GUI" and joins network
/// 9999.
pub open spec fn is_config_for(
    cfg: Mm2Json,
    rpc_password: Seq<char>,
    passphrase: Seq<char>,
    userhome: Seq<char>,
) -> bool {
    &&& cfg.gui@ == "MM2GUI"@
    &&& cfg.netid == MM2_NETID
    &&& cfg.rpc_password@ == rpc_password
    &&& cfg.passphrase@ == passphrase
    &&& cfg.userhome@ == userhome
}

impl Mm2Json {
    /// The configuration for the given RPC password, wallet passphrase and
    /// home directory.
    pub fn create(rpc_password: &str, passphrase: &str, userhome: &str) -> (res: Self)
        ensures
            is_config_for(res, rpc_password@, passphrase@, userhome@),
    {
        Mm2Json {
            gui: String::from_str("MM2GUI"),
            netid: MM2_NETID,
            rpc_password: String::from_str(rpc_password),
            passphrase: String::from_str(passphrase),
            userhome: String::from_str(userhome),
        }
    }
}

/// The configuration keeps each given text whole, character for character,
/// whatever its length; so different passphrases (or passwords, or home
/// directories) give different configurations.
pub proof fn lemma_config_keeps_given_texts(
    cfg: Mm2Json,
    cfg2: Mm2Json,
    rpc_password: Seq<char>,
    passphrase: Seq<char>,
    userhome: Seq<char>,
    rpc_password2: Seq<char>,
    passphrase2: Seq<char>,
    userhome2: Seq<char>,
)
    requires
        is_config_for(cfg, rpc_password, passphrase, userhome),
        is_config_for(cfg2, rpc_password2, passphrase2, userhome2),
    ensures
        cfg.passphrase@ == passphrase,
        cfg.passphrase@.len() == passphrase.len(),
        cfg.rpc_password@ == rpc_password,
        cfg.userhome@ == userhome,
        cfg.gui@ == "MM2GUI"@,
        cfg.netid == 9999,
        passphrase != passphrase2 ==> cfg.passphrase@ != cfg2.passphrase@,
        rpc_password != rpc_password2 ==> cfg.rpc_password@ != cfg2.rpc_password@,
        userhome != userhome2 ==> cfg.userhome@ != cfg2.userhome@,
        cfg.gui@ == cfg2.gui@ && cfg.netid == cfg2.netid,
{
}

} // verus!
