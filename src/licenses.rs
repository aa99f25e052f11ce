//! The licenses a new project can be given, their names and where their
//! texts are published.
use crate::text::{same_text, texts};
use vstd::prelude::*;

verus! {

/// A project license; `NoLicense` stands for none at all (named "None").
#[derive(Clone, Copy, Debug, PartialEq, Eq, Structural)]
pub enum Licenses {
    MIT,
    Apache2,
    GPL3,
    BSD3,
    Unlicense,
    MPL2,
    AGPL3,
    LGPL3,
    Artistic2,
    CC0,
    EUPL1_2,
    Zlib,
    NoLicense,
}

/// The SPDX-style name of a license.
pub open spec fn license_name(l: Licenses) -> Seq<char> {
    match l {
        Licenses::MIT => "MIT"@,
        Licenses::Apache2 => "Apache-2.0"@,
        Licenses::GPL3 => "GPL-3.0"@,
        Licenses::BSD3 => "BSD-3-Clause"@,
        Licenses::Unlicense => "Unlicense"@,
        Licenses::MPL2 => "MPL-2.0"@,
        Licenses::AGPL3 => "AGPL-3.0"@,
        Licenses::LGPL3 => "LGPL-3.0"@,
        Licenses::Artistic2 => "Artistic-2.0"@,
        Licenses::CC0 => "CC0-1.0"@,
        Licenses::EUPL1_2 => "EUPL-1.2"@,
        Licenses::Zlib => "Zlib"@,
        Licenses::NoLicense => "None"@,
    }
}

/// Every license, in the order they are offered.
pub open spec fn all_licenses() -> Seq<Licenses> {
    seq![
        Licenses::MIT,
        Licenses::Apache2,
        Licenses::GPL3,
        Licenses::BSD3,
        Licenses::Unlicense,
        Licenses::MPL2,
        Licenses::AGPL3,
        Licenses::LGPL3,
        Licenses::Artistic2,
        Licenses::CC0,
        Licenses::EUPL1_2,
        Licenses::Zlib,
        Licenses::NoLicense,
    ]
}

/// The license a name stands for; an unknown name means no license.
pub open spec fn license_named(s: Seq<char>) -> Licenses {
    if s == "MIT"@ {
        Licenses::MIT
    } else if s == "Apache-2.0"@ {
        Licenses::Apache2
    } else if s == "GPL-3.0"@ {
        Licenses::GPL3
    } else if s == "BSD-3-Clause"@ {
        Licenses::BSD3
    } else if s == "Unlicense"@ {
        Licenses::Unlicense
    } else if s == "MPL-2.0"@ {
        Licenses::MPL2
    } else if s == "AGPL-3.0"@ {
        Licenses::AGPL3
    } else if s == "LGPL-3.0"@ {
        Licenses::LGPL3
    } else if s == "Artistic-2.0"@ {
        Licenses::Artistic2
    } else if s == "CC0-1.0"@ {
        Licenses::CC0
    } else if s == "EUPL-1.2"@ {
        Licenses::EUPL1_2
    } else if s == "Zlib"@ {
        Licenses::Zlib
    } else {
        Licenses::NoLicense
    }
}

/// Where the text of a license is published; none for no license.
pub open spec fn license_url(l: Licenses) -> Option<Seq<char>> {
    match l {
        Licenses::MIT => Some("https://raw.githubusercontent.com/hackiado/licenses/refs/heads/main/MIT"@),
        Licenses::Apache2 => Some("https://raw.githubusercontent.com/hackiado/licenses/refs/heads/main/Apache-2.0"@),
        Licenses::GPL3 => Some("https://raw.githubusercontent.com/hackiado/licenses/refs/heads/main/GPL-3.0"@),
        Licenses::BSD3 => Some("https://raw.githubusercontent.com/hackiado/licenses/refs/heads/main/BSD-3-Clause"@),
        Licenses::Unlicense => Some("https://raw.githubusercontent.com/hackiado/licenses/refs/heads/main/Unlicense"@),
        Licenses::MPL2 => Some("https://raw.githubusercontent.com/hackiado/licenses/refs/heads/main/MPL-2.0"@),
        Licenses::AGPL3 => Some("https://raw.githubusercontent.com/hackiado/licenses/refs/heads/main/AGPL_V3"@),
        Licenses::LGPL3 => Some("https://raw.githubusercontent.com/hackiado/licenses/refs/heads/main/LGPL-3.0"@),
        Licenses::Artistic2 => Some("https://raw.githubusercontent.com/hackiado/licenses/refs/heads/main/Artistic-2.0"@),
        Licenses::CC0 => Some("https://raw.githubusercontent.com/hackiado/licenses/refs/heads/main/CC0-1.0"@),
        Licenses::EUPL1_2 => Some("https://raw.githubusercontent.com/hackiado/licenses/refs/heads/main/EUPL-1.2"@),
        Licenses::Zlib => Some("https://raw.githubusercontent.com/hackiado/licenses/refs/heads/main/Zlib"@),
        Licenses::NoLicense => None,
    }
}

impl Licenses {
    /// The names of all licenses, in the order they are offered.
    pub fn variants() -> (r: Vec<String>)
        ensures
            texts(r@) == all_licenses().map_values(|l: Licenses| license_name(l)),
    {
        let mut r: Vec<String> = Vec::new();
        r.push("MIT".to_owned());
        r.push("Apache-2.0".to_owned());
        r.push("GPL-3.0".to_owned());
        r.push("BSD-3-Clause".to_owned());
        r.push("Unlicense".to_owned());
        r.push("MPL-2.0".to_owned());
        r.push("AGPL-3.0".to_owned());
        r.push("LGPL-3.0".to_owned());
        r.push("Artistic-2.0".to_owned());
        r.push("CC0-1.0".to_owned());
        r.push("EUPL-1.2".to_owned());
        r.push("Zlib".to_owned());
        r.push("None".to_owned());
        assert(texts(r@) =~= all_licenses().map_values(|l: Licenses| license_name(l)));
        r
    }

    /// The license named `s`; an unknown name gives `Licenses::NoLicense`.
    pub fn from_str(s: &str) -> (r: Self)
        ensures
            r == license_named(s@),
    {
        if same_text(s, "MIT") {
            Licenses::MIT
        } else if same_text(s, "Apache-2.0") {
            Licenses::Apache2
        } else if same_text(s, "GPL-3.0") {
            Licenses::GPL3
        } else if same_text(s, "BSD-3-Clause") {
            Licenses::BSD3
        } else if same_text(s, "Unlicense") {
            Licenses::Unlicense
        } else if same_text(s, "MPL-2.0") {
            Licenses::MPL2
        } else if same_text(s, "AGPL-3.0") {
            Licenses::AGPL3
        } else if same_text(s, "LGPL-3.0") {
            Licenses::LGPL3
        } else if same_text(s, "Artistic-2.0") {
            Licenses::Artistic2
        } else if same_text(s, "CC0-1.0") {
            Licenses::CC0
        } else if same_text(s, "EUPL-1.2") {
            Licenses::EUPL1_2
        } else if same_text(s, "Zlib") {
            Licenses::Zlib
        } else {
            Licenses::NoLicense
        }
    }

    /// The name of the license.
    pub fn to_str(&self) -> (r: &'static str)
        ensures
            r@ == license_name(*self),
    {
        match self {
            Licenses::MIT => "MIT",
            Licenses::Apache2 => "Apache-2.0",
            Licenses::GPL3 => "GPL-3.0",
            Licenses::BSD3 => "BSD-3-Clause",
            Licenses::Unlicense => "Unlicense",
            Licenses::MPL2 => "MPL-2.0",
            Licenses::AGPL3 => "AGPL-3.0",
            Licenses::LGPL3 => "LGPL-3.0",
            Licenses::Artistic2 => "Artistic-2.0",
            Licenses::CC0 => "CC0-1.0",
            Licenses::EUPL1_2 => "EUPL-1.2",
            Licenses::Zlib => "Zlib",
            Licenses::NoLicense => "None",
        }
    }

    /// Where the text of the license is published; `None` for no license.
    pub fn download_url(&self) -> (r: Option<&'static str>)
        ensures
            match r {
                Some(u) => license_url(*self) == Some(u@),
                None => license_url(*self) is None,
            },
    {
        match self {
            Licenses::MIT => Some("https://raw.githubusercontent.com/hackiado/licenses/refs/heads/main/MIT"),
            Licenses::Apache2 => Some("https://raw.githubusercontent.com/hackiado/licenses/refs/heads/main/Apache-2.0"),
            Licenses::GPL3 => Some("https://raw.githubusercontent.com/hackiado/licenses/refs/heads/main/GPL-3.0"),
            Licenses::BSD3 => Some("https://raw.githubusercontent.com/hackiado/licenses/refs/heads/main/BSD-3-Clause"),
            Licenses::Unlicense => Some("https://raw.githubusercontent.com/hackiado/licenses/refs/heads/main/Unlicense"),
            Licenses::MPL2 => Some("https://raw.githubusercontent.com/hackiado/licenses/refs/heads/main/MPL-2.0"),
            Licenses::AGPL3 => Some("https://raw.githubusercontent.com/hackiado/licenses/refs/heads/main/AGPL_V3"),
            Licenses::LGPL3 => Some("https://raw.githubusercontent.com/hackiado/licenses/refs/heads/main/LGPL-3.0"),
            Licenses::Artistic2 => Some("https://raw.githubusercontent.com/hackiado/licenses/refs/heads/main/Artistic-2.0"),
            Licenses::CC0 => Some("https://raw.githubusercontent.com/hackiado/licenses/refs/heads/main/CC0-1.0"),
            Licenses::EUPL1_2 => Some("https://raw.githubusercontent.com/hackiado/licenses/refs/heads/main/EUPL-1.2"),
            Licenses::Zlib => Some("https://raw.githubusercontent.com/hackiado/licenses/refs/heads/main/Zlib"),
            Licenses::NoLicense => None,
        }
    }
}

/// Naming a license and reading the name back gives the same license.
pub proof fn lemma_name_round_trip(l: Licenses)
    ensures
        license_named(license_name(l)) == l,
{
    reveal_strlit("MIT");
    reveal_strlit("Apache-2.0");
    reveal_strlit("GPL-3.0");
    reveal_strlit("BSD-3-Clause");
    reveal_strlit("Unlicense");
    reveal_strlit("MPL-2.0");
    reveal_strlit("AGPL-3.0");
    reveal_strlit("LGPL-3.0");
    reveal_strlit("Artistic-2.0");
    reveal_strlit("CC0-1.0");
    reveal_strlit("EUPL-1.2");
    reveal_strlit("Zlib");
    reveal_strlit("None");
    match l {
        Licenses::MIT => {
        },
        Licenses::Apache2 => {
            assert("Apache-2.0"@.len() != "MIT"@.len());
        },
        Licenses::GPL3 => {
            assert("GPL-3.0"@.len() != "MIT"@.len());
            assert("GPL-3.0"@.len() != "Apache-2.0"@.len());
        },
        Licenses::BSD3 => {
            assert("BSD-3-Clause"@.len() != "MIT"@.len());
            assert("BSD-3-Clause"@.len() != "Apache-2.0"@.len());
            assert("BSD-3-Clause"@.len() != "GPL-3.0"@.len());
        },
        Licenses::Unlicense => {
            assert("Unlicense"@.len() != "MIT"@.len());
            assert("Unlicense"@.len() != "Apache-2.0"@.len());
            assert("Unlicense"@.len() != "GPL-3.0"@.len());
            assert("Unlicense"@.len() != "BSD-3-Clause"@.len());
        },
        Licenses::MPL2 => {
            assert("MPL-2.0"@.len() != "MIT"@.len());
            assert("MPL-2.0"@.len() != "Apache-2.0"@.len());
            assert("MPL-2.0"@[0] != "GPL-3.0"@[0]);
            assert("MPL-2.0"@.len() != "BSD-3-Clause"@.len());
            assert("MPL-2.0"@.len() != "Unlicense"@.len());
        },
        Licenses::AGPL3 => {
            assert("AGPL-3.0"@.len() != "MIT"@.len());
            assert("AGPL-3.0"@.len() != "Apache-2.0"@.len());
            assert("AGPL-3.0"@.len() != "GPL-3.0"@.len());
            assert("AGPL-3.0"@.len() != "BSD-3-Clause"@.len());
            assert("AGPL-3.0"@.len() != "Unlicense"@.len());
            assert("AGPL-3.0"@.len() != "MPL-2.0"@.len());
        },
        Licenses::LGPL3 => {
            assert("LGPL-3.0"@.len() != "MIT"@.len());
            assert("LGPL-3.0"@.len() != "Apache-2.0"@.len());
            assert("LGPL-3.0"@.len() != "GPL-3.0"@.len());
            assert("LGPL-3.0"@.len() != "BSD-3-Clause"@.len());
            assert("LGPL-3.0"@.len() != "Unlicense"@.len());
            assert("LGPL-3.0"@.len() != "MPL-2.0"@.len());
            assert("LGPL-3.0"@[0] != "AGPL-3.0"@[0]);
        },
        Licenses::Artistic2 => {
            assert("Artistic-2.0"@.len() != "MIT"@.len());
            assert("Artistic-2.0"@.len() != "Apache-2.0"@.len());
            assert("Artistic-2.0"@.len() != "GPL-3.0"@.len());
            assert("Artistic-2.0"@[0] != "BSD-3-Clause"@[0]);
            assert("Artistic-2.0"@.len() != "Unlicense"@.len());
            assert("Artistic-2.0"@.len() != "MPL-2.0"@.len());
            assert("Artistic-2.0"@.len() != "AGPL-3.0"@.len());
            assert("Artistic-2.0"@.len() != "LGPL-3.0"@.len());
        },
        Licenses::CC0 => {
            assert("CC0-1.0"@.len() != "MIT"@.len());
            assert("CC0-1.0"@.len() != "Apache-2.0"@.len());
            assert("CC0-1.0"@[0] != "GPL-3.0"@[0]);
            assert("CC0-1.0"@.len() != "BSD-3-Clause"@.len());
            assert("CC0-1.0"@.len() != "Unlicense"@.len());
            assert("CC0-1.0"@[0] != "MPL-2.0"@[0]);
            assert("CC0-1.0"@.len() != "AGPL-3.0"@.len());
            assert("CC0-1.0"@.len() != "LGPL-3.0"@.len());
            assert("CC0-1.0"@.len() != "Artistic-2.0"@.len());
        },
        Licenses::EUPL1_2 => {
            assert("EUPL-1.2"@.len() != "MIT"@.len());
            assert("EUPL-1.2"@.len() != "Apache-2.0"@.len());
            assert("EUPL-1.2"@.len() != "GPL-3.0"@.len());
            assert("EUPL-1.2"@.len() != "BSD-3-Clause"@.len());
            assert("EUPL-1.2"@.len() != "Unlicense"@.len());
            assert("EUPL-1.2"@.len() != "MPL-2.0"@.len());
            assert("EUPL-1.2"@[0] != "AGPL-3.0"@[0]);
            assert("EUPL-1.2"@[0] != "LGPL-3.0"@[0]);
            assert("EUPL-1.2"@.len() != "Artistic-2.0"@.len());
            assert("EUPL-1.2"@.len() != "CC0-1.0"@.len());
        },
        Licenses::Zlib => {
            assert("Zlib"@.len() != "MIT"@.len());
            assert("Zlib"@.len() != "Apache-2.0"@.len());
            assert("Zlib"@.len() != "GPL-3.0"@.len());
            assert("Zlib"@.len() != "BSD-3-Clause"@.len());
            assert("Zlib"@.len() != "Unlicense"@.len());
            assert("Zlib"@.len() != "MPL-2.0"@.len());
            assert("Zlib"@.len() != "AGPL-3.0"@.len());
            assert("Zlib"@.len() != "LGPL-3.0"@.len());
            assert("Zlib"@.len() != "Artistic-2.0"@.len());
            assert("Zlib"@.len() != "CC0-1.0"@.len());
            assert("Zlib"@.len() != "EUPL-1.2"@.len());
        },
        Licenses::NoLicense => {
            assert("None"@.len() != "MIT"@.len());
            assert("None"@.len() != "Apache-2.0"@.len());
            assert("None"@.len() != "GPL-3.0"@.len());
            assert("None"@.len() != "BSD-3-Clause"@.len());
            assert("None"@.len() != "Unlicense"@.len());
            assert("None"@.len() != "MPL-2.0"@.len());
            assert("None"@.len() != "AGPL-3.0"@.len());
            assert("None"@.len() != "LGPL-3.0"@.len());
            assert("None"@.len() != "Artistic-2.0"@.len());
            assert("None"@.len() != "CC0-1.0"@.len());
            assert("None"@.len() != "EUPL-1.2"@.len());
            assert("None"@[0] != "Zlib"@[0]);
        },
    }
}

} // verus!
