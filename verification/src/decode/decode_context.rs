//! Settings of one decode run: the network, how much to say, and in which
//! output format.

use vstd::prelude::*;
use crate::text::str_equals;
use crate::types::network::{config_view, copy_config, Network, NetworkConfig};

verus! {

/// How a report is printed.
#[derive(Debug, Clone, Copy, PartialEq, Eq, Structural)]
pub enum OutputFormat {
    Human,
    Json,
    Compact,
    Short,
}

/// The name of an output format.
pub open spec fn format_name(f: OutputFormat) -> Seq<char> {
    match f {
        OutputFormat::Human => "human"@,
        OutputFormat::Json => "json"@,
        OutputFormat::Compact => "compact"@,
        OutputFormat::Short => "short"@,
    }
}

/// The output format a name selects: `json`, `compact` and `short` select
/// theirs, anything else selects the human format.
pub open spec fn format_of(s: Seq<char>) -> OutputFormat {
    if s == "json"@ {
        OutputFormat::Json
    } else if s == "compact"@ {
        OutputFormat::Compact
    } else if s == "short"@ {
        OutputFormat::Short
    } else {
        OutputFormat::Human
    }
}

impl Default for OutputFormat {
    /// The human format.
    fn default() -> (f: Self)
        ensures
            f == OutputFormat::Human,
    {
        OutputFormat::Human
    }
}

impl OutputFormat {
    /// The output format a name selects; an unknown name selects `Human`.
    pub fn from_str(s: &str) -> (f: Self)
        ensures
            f == format_of(s@),
    {
        if str_equals(s, "json") {
            OutputFormat::Json
        } else if str_equals(s, "compact") {
            OutputFormat::Compact
        } else if str_equals(s, "short") {
            OutputFormat::Short
        } else {
            OutputFormat::Human
        }
    }

    /// The name of the format.
    pub fn as_str(&self) -> (s: &'static str)
        ensures
            s@ == format_name(*self),
    {
        match self {
            OutputFormat::Human => "human",
            OutputFormat::Json => "json",
            OutputFormat::Compact => "compact",
            OutputFormat::Short => "short",
        }
    }
}

/// Reading a format's name back gives the format.
pub proof fn law_output_format_round_trip(f: OutputFormat)
    ensures
        format_of(format_name(f)) == f,
{
    reveal_strlit("human");
    reveal_strlit("json");
    reveal_strlit("compact");
    reveal_strlit("short");
    assert("human"@ != "json"@ && "human"@ != "compact"@ && "human"@ != "short"@) by {
        assert("human"@.len() != "json"@.len());
        assert("human"@.len() != "compact"@.len());
        assert("human"@[0] != "short"@[0]);
    }
    assert("compact"@ != "json"@) by {
        assert("compact"@.len() != "json"@.len());
    }
    assert("short"@ != "json"@ && "short"@ != "compact"@) by {
        assert("short"@.len() != "json"@.len());
        assert("short"@.len() != "compact"@.len());
    }
}

/// The settings of a decode run.
#[derive(Debug, Clone)]
pub struct DecodeContext {
    pub network: NetworkConfig,
    pub verbosity: u8,
    pub output_format: OutputFormat,
}

impl DecodeContext {
    /// A builder with no network chosen, verbosity 0 and the human format.
    pub fn builder() -> (b: DecodeContextBuilder)
        ensures
            b.network is None,
            b.verbosity == 0,
            b.output_format == OutputFormat::Human,
    {
        DecodeContextBuilder::default()
    }
}

/// Builds a `DecodeContext`.
#[derive(Debug)]
pub struct DecodeContextBuilder {
    pub network: Option<NetworkConfig>,
    pub verbosity: u8,
    pub output_format: OutputFormat,
}

impl Default for DecodeContextBuilder {
    /// No network chosen, verbosity 0, the human format.
    fn default() -> (b: Self)
        ensures
            b.network is None,
            b.verbosity == 0,
            b.output_format == OutputFormat::Human,
    {
        DecodeContextBuilder { network: None, verbosity: 0, output_format: OutputFormat::Human }
    }
}

impl DecodeContextBuilder {
    /// Chooses the network.
    pub fn network(self, network: NetworkConfig) -> (b: Self)
        ensures
            b.network == Some(network),
            b.verbosity == self.verbosity,
            b.output_format == self.output_format,
    {
        DecodeContextBuilder { network: Some(network), verbosity: self.verbosity, output_format: self.output_format }
    }

    /// Sets the verbosity.
    pub fn verbosity(self, verbosity: u8) -> (b: Self)
        ensures
            b.network == self.network,
            b.verbosity == verbosity,
            b.output_format == self.output_format,
    {
        DecodeContextBuilder { network: self.network, verbosity, output_format: self.output_format }
    }

    /// Sets the output format.
    pub fn output_format(self, format: OutputFormat) -> (b: Self)
        ensures
            b.network == self.network,
            b.verbosity == self.verbosity,
            b.output_format == format,
    {
        DecodeContextBuilder { network: self.network, verbosity: self.verbosity, output_format: format }
    }

    /// The context: the chosen network, or the test network when none was
    /// chosen, with the verbosity and format set.
    pub fn build(self) -> (c: DecodeContext)
        ensures
            match self.network {
                Some(n) => c.network == n,
                None => c.network.network == Network::Testnet && c.network.rpc_url@
                    == "https://soroban-testnet.stellar.org"@,
            },
            c.verbosity == self.verbosity,
            c.output_format == self.output_format,
    {
        let network = match self.network {
            Some(n) => n,
            None => NetworkConfig::testnet(),
        };
        DecodeContext { network, verbosity: self.verbosity, output_format: self.output_format }
    }

    /// A builder for a copy of the given network, with verbosity 0 and the
    /// human format.
    pub fn from(network: &NetworkConfig) -> (b: Self)
        ensures
            b.network matches Some(n) && config_view(n) == config_view(*network),
            b.verbosity == 0,
            b.output_format == OutputFormat::Human,
    {
        DecodeContextBuilder::default().network(copy_config(network))
    }
}

} // verus!
