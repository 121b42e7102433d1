//! The four serialization formats the converter knows, and how a format is
//! chosen from an explicit flag or a file extension.

use vstd::prelude::*;

verus! {

/// One of the supported serialization formats.
#[derive(Clone, Copy, Debug, PartialEq, Eq, Structural)]
pub enum Format {
    Json,
    Yaml,
    Toml,
    Xml,
}

impl Format {
    /// The lower-case name of the format, as it appears in flags and messages.
    pub open spec fn spec_name(self) -> Seq<char> {
        match self {
            Format::Json => "json"@,
            Format::Yaml => "yaml"@,
            Format::Toml => "toml"@,
            Format::Xml => "xml"@,
        }
    }

    /// Returns the format's name.
    pub fn name(&self) -> (r: &'static str)
        ensures
            r@ == self.spec_name(),
    {
        match self {
            Format::Json => "json",
            Format::Yaml => "yaml",
            Format::Toml => "toml",
            Format::Xml => "xml",
        }
    }
}

/// The format that a file extension denotes: `yml` is an alias for `yaml`,
/// and anything outside the four known extensions denotes no format.
pub open spec fn ext_format(e: Seq<char>) -> Option<Format> {
    if e == "json"@ {
        Some(Format::Json)
    } else if e == "yaml"@ || e == "yml"@ {
        Some(Format::Yaml)
    } else if e == "toml"@ {
        Some(Format::Toml)
    } else if e == "xml"@ {
        Some(Format::Xml)
    } else {
        None
    }
}

/// Maps a file extension to the format it denotes, if any.
pub fn format_from_ext(ext: &[char]) -> (r: Option<Format>)
    ensures
        r == ext_format(ext@),
{
    proof {
        reveal_strlit("json");
        reveal_strlit("yaml");
        reveal_strlit("yml");
        reveal_strlit("toml");
        reveal_strlit("xml");
    }
    let n = ext.len();
    if n == 4 && ext[0] == 'j' && ext[1] == 's' && ext[2] == 'o' && ext[3] == 'n' {
        proof {
            assert(ext@ =~= "json"@);
        }
        Some(Format::Json)
    } else if n == 4 && ext[0] == 'y' && ext[1] == 'a' && ext[2] == 'm' && ext[3] == 'l' {
        proof {
            assert(ext@ =~= "yaml"@);
        }
        Some(Format::Yaml)
    } else if n == 3 && ext[0] == 'y' && ext[1] == 'm' && ext[2] == 'l' {
        proof {
            assert(ext@ =~= "yml"@);
        }
        Some(Format::Yaml)
    } else if n == 4 && ext[0] == 't' && ext[1] == 'o' && ext[2] == 'm' && ext[3] == 'l' {
        proof {
            assert(ext@ =~= "toml"@);
        }
        Some(Format::Toml)
    } else if n == 3 && ext[0] == 'x' && ext[1] == 'm' && ext[2] == 'l' {
        proof {
            assert(ext@ =~= "xml"@);
        }
        Some(Format::Xml)
    } else {
        proof {
            assert(ext@ != "json"@ && ext@ != "yaml"@ && ext@ != "yml"@ && ext@ != "toml"@
                && ext@ != "xml"@);
        }
        None
    }
}

} // verus!
