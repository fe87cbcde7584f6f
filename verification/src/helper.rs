//! The command lines of the helper process: the one that keeps it running
//! and the one that asks it for the onion address.

use vstd::prelude::*;

verus! {

/// The program that is run, for both command lines.
pub const HELPER_PROGRAM: &'static str = "./arti";

/// The configuration file that both command lines name.
pub const HELPER_CONFIG: &'static str = "/etc/arti/onionservice.toml";

/// The nickname of the onion service whose address is asked for.
pub const SERVICE_NICKNAME: &'static str = "demo";

/// The arguments as sequences of characters.
pub open spec fn words(arguments: Seq<&'static str>) -> Seq<Seq<char>> {
    arguments.map_values(|argument: &'static str| argument@)
}

/// The arguments that run the helper as a proxy, for as long as it lives.
pub open spec fn launch_words() -> Seq<Seq<char>> {
    seq!["proxy"@, "-c"@, HELPER_CONFIG@]
}

/// The arguments that ask the helper for the address of the onion service.
pub open spec fn query_words() -> Seq<Seq<char>> {
    seq!["-c"@, HELPER_CONFIG@, "hss"@, "--nickname"@, SERVICE_NICKNAME@, "onion-address"@]
}

/// The arguments that run the helper as a proxy, for as long as it lives.
pub fn launch_arguments() -> (arguments: Vec<&'static str>)
    ensures
        words(arguments@) == launch_words(),
{
    let arguments = vec!["proxy", "-c", HELPER_CONFIG];
    assert(words(arguments@) =~= launch_words());
    arguments
}

/// The arguments that ask the helper for the address of the onion service.
pub fn query_arguments() -> (arguments: Vec<&'static str>)
    ensures
        words(arguments@) == query_words(),
{
    let arguments =
        vec!["-c", HELPER_CONFIG, "hss", "--nickname", SERVICE_NICKNAME, "onion-address"];
    assert(words(arguments@) =~= query_words());
    arguments
}

} // verus!
