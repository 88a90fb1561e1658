//! The settings of the service, as its environment gives them.

use crate::decimal::{parse_amount, parse_u128};
use crate::text::name_view;
use vstd::prelude::*;
use vstd::string::*;

verus! {

/// The settings of the service.
#[derive(Debug)]
pub struct Config {
    /// The port that the server listens on.
    pub port: u16,
    /// Where Ethereum is reached, for ENS resolution.
    pub eth_rpc_url: String,
    /// Where the Arc chain is reached.
    pub arc_rpc_url: String,
    /// Where LI.FI is reached.
    pub lifi_api_url: String,
    /// The key for LI.FI, if there is one.
    pub lifi_api_key: Option<String>,
    /// The key for the Yellow Network, if there is one.
    pub yellow_api_key: Option<String>,
}

/// The port that a setting names: its number where it is decimal text up to
/// 65535, else 3001.
pub open spec fn port_of(setting: Option<Seq<char>>) -> u16 {
    match setting {
        Some(text) => match parse_u128(text) {
            Some(number) => if number <= u16::MAX {
                number as u16
            } else {
                3001
            },
            None => 3001,
        },
        None => 3001,
    }
}

/// The setting, or `fallback` where there is none.
pub open spec fn setting_or(setting: Option<Seq<char>>, fallback: Seq<char>) -> Seq<char> {
    match setting {
        Some(text) => text,
        None => fallback,
    }
}

fn or_default(setting: Option<String>, fallback: &str) -> (text: String)
    ensures
        text@ == setting_or(name_view(setting), fallback@),
{
    match setting {
        Some(text) => text,
        None => String::from_str(fallback),
    }
}

impl Config {
    /// The settings that the values of `PORT`, `ETH_RPC_URL`, `ARC_RPC_URL`,
    /// `LIFI_API_URL`, `LIFI_API_KEY` and `YELLOW_API_KEY` make, each `None`
    /// where the environment does not hold it. A port that is missing or
    /// unreadable is 3001; an address that is missing is the public one.
    pub fn from_vars(
        port: Option<String>,
        eth_rpc_url: Option<String>,
        arc_rpc_url: Option<String>,
        lifi_api_url: Option<String>,
        lifi_api_key: Option<String>,
        yellow_api_key: Option<String>,
    ) -> (config: Config)
        ensures
            config.port == port_of(name_view(port)),
            config.eth_rpc_url@ == setting_or(name_view(eth_rpc_url), "https://eth.llamarpc.com"@),
            config.arc_rpc_url@ == setting_or(
                name_view(arc_rpc_url),
                "https://rpc.arc.circle.com"@,
            ),
            config.lifi_api_url@ == setting_or(name_view(lifi_api_url), "https://li.quest/v1"@),
            config.lifi_api_key == lifi_api_key,
            config.yellow_api_key == yellow_api_key,
    {
        let port: u16 = match &port {
            Some(text) => match parse_amount(text.as_str()) {
                Some(number) => if number <= 65535 {
                    number as u16
                } else {
                    3001
                },
                None => 3001,
            },
            None => 3001,
        };
        Config {
            port,
            eth_rpc_url: or_default(eth_rpc_url, "https://eth.llamarpc.com"),
            arc_rpc_url: or_default(arc_rpc_url, "https://rpc.arc.circle.com"),
            lifi_api_url: or_default(lifi_api_url, "https://li.quest/v1"),
            lifi_api_key,
            yellow_api_key,
        }
    }
}

} // verus!
