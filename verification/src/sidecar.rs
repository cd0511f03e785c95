//! The bundled database server: which of the bundled binaries runs on this
//! platform, and the command line that creates its first administrator.

use vstd::prelude::*;

verus! {

/// One bundled build of the server, with the platform it was built for.
#[derive(Debug)]
pub struct SidecarBinary {
    /// The operating system, as `std::env::consts::OS` spells it.
    pub os: String,
    /// The CPU architecture, as `std::env::consts::ARCH` spells it.
    pub arch: String,
    /// The file name of the binary.
    pub file_name: String,
}

impl SidecarBinary {
    /// The build is for this operating system and this architecture.
    pub open spec fn is_for(&self, os: Seq<char>, arch: Seq<char>) -> bool {
        self.os@ == os && self.arch@ == arch
    }
}

/// No build before position `end` is for the platform.
pub open spec fn none_before(
    bundled: Seq<SidecarBinary>,
    os: Seq<char>,
    arch: Seq<char>,
    end: int,
) -> bool {
    forall|j: int| 0 <= j < end && j < bundled.len() ==> !(#[trigger] bundled[j]).is_for(os, arch)
}

/// None of the builds is for the platform.
pub open spec fn unsupported(bundled: Seq<SidecarBinary>, os: Seq<char>, arch: Seq<char>) -> bool {
    none_before(bundled, os, arch, bundled.len() as int)
}

/// The build at `i` is for the platform, and no build before it is.
pub open spec fn is_first_match(
    bundled: Seq<SidecarBinary>,
    os: Seq<char>,
    arch: Seq<char>,
    i: int,
) -> bool {
    &&& 0 <= i < bundled.len()
    &&& bundled[i].is_for(os, arch)
    &&& none_before(bundled, os, arch, i)
}

/// At most one build is the first match: the list and the platform
/// determine the selection.
pub proof fn lemma_first_match_unique(
    bundled: Seq<SidecarBinary>,
    os: Seq<char>,
    arch: Seq<char>,
    i: int,
    j: int,
)
    requires
        is_first_match(bundled, os, arch, i),
        is_first_match(bundled, os, arch, j),
    ensures
        i == j,
{
}

/// Selects the binary for the platform: the file name of the first bundled
/// build whose operating system and architecture both match, and `None`
/// exactly when no build matches.
pub fn select_binary(bundled: &Vec<SidecarBinary>, os: &str, arch: &str) -> (name: Option<String>)
    ensures
        name is None <==> unsupported(bundled@, os@, arch@),
        name is Some ==> exists|i: int|
            is_first_match(bundled@, os@, arch@, i) && name->0@ == bundled@[i].file_name@,
{
    let os_owned = os.to_owned();
    let arch_owned = arch.to_owned();
    let mut i: usize = 0;
    while i < bundled.len()
        invariant
            i <= bundled@.len(),
            os_owned@ == os@,
            arch_owned@ == arch@,
            none_before(bundled@, os@, arch@, i as int),
        decreases bundled@.len() - i,
    {
        if bundled[i].os == os_owned && bundled[i].arch == arch_owned {
            let name = bundled[i].file_name.clone();
            assert(is_first_match(bundled@, os@, arch@, i as int));
            return Some(name);
        }
        i += 1;
    }
    None
}

/// The command line that creates the administrator:
/// `superuser create --email <email> --password <password>`.
pub open spec fn superuser_create_command(email: Seq<char>, password: Seq<char>) -> Seq<Seq<char>> {
    seq!["superuser"@, "create"@, "--email"@, email, "--password"@, password]
}

/// Builds the arguments handed to the server binary to create the
/// administrator with the given credentials.
pub fn superuser_create_args(email: &str, password: &str) -> (args: Vec<String>)
    ensures
        args.deep_view() == superuser_create_command(email@, password@),
{
    let mut args: Vec<String> = Vec::new();
    args.push("superuser".to_owned());
    args.push("create".to_owned());
    args.push("--email".to_owned());
    args.push(email.to_owned());
    args.push("--password".to_owned());
    args.push(password.to_owned());
    assert(args.deep_view() =~= superuser_create_command(email@, password@));
    args
}

} // verus!
