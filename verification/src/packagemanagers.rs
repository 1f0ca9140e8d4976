//! A fixed, read-only catalog of known package managers and the command-line
//! verbs for their basic operations.

use vstd::prelude::*;

verus! {

/// Descriptor of one supported package manager: its invocation name and the
/// verb strings for installing, removing and updating a package.
#[derive(Clone, Debug)]
pub struct PackageManager {
    pub name: String,
    pub install_command: String,
    pub uninstall_command: String,
    pub update_command: String,
}

/// The fields of a descriptor as plain sequences: name, install verb,
/// uninstall verb, update verb.
pub open spec fn pm_view(p: PackageManager) -> (Seq<char>, Seq<char>, Seq<char>, Seq<char>) {
    (p.name@, p.install_command@, p.uninstall_command@, p.update_command@)
}

/// The default catalog: five package managers, each with its own verbs.
pub open spec fn catalog_spec() -> Seq<(Seq<char>, Seq<char>, Seq<char>, Seq<char>)> {
    seq![
        ("dnf"@, "install"@, "remove"@, "update"@),
        ("pacman"@, "-Sy"@, "-Rs"@, "-Syu"@),
        ("apt"@, "install"@, "remove"@, "update"@),
        ("zypper"@, "install"@, "remove"@, "update"@),
        ("yum"@, "install"@, "remove"@, "update"@),
    ]
}

fn pm(name: &str, install: &str, uninstall: &str, update: &str) -> (p: PackageManager)
    ensures
        pm_view(p) == (name@, install@, uninstall@, update@),
{
    PackageManager {
        name: name.to_owned(),
        install_command: install.to_owned(),
        uninstall_command: uninstall.to_owned(),
        update_command: update.to_owned(),
    }
}

/// The catalog as a value: one descriptor per entry of `catalog_spec`, in the
/// same order.
pub fn catalog() -> (v: Vec<PackageManager>)
    ensures
        v@.len() == catalog_spec().len(),
        forall|i: int| 0 <= i < v@.len() ==> pm_view(#[trigger] v@[i]) == catalog_spec()[i],
{
    let mut v: Vec<PackageManager> = Vec::new();
    v.push(pm("dnf", "install", "remove", "update"));
    v.push(pm("pacman", "-Sy", "-Rs", "-Syu"));
    v.push(pm("apt", "install", "remove", "update"));
    v.push(pm("zypper", "install", "remove", "update"));
    v.push(pm("yum", "install", "remove", "update"));
    v
}

fn pm_clone(p: &PackageManager) -> (r: PackageManager)
    ensures
        pm_view(r) == pm_view(*p),
{
    PackageManager {
        name: p.name.clone(),
        install_command: p.install_command.clone(),
        uninstall_command: p.uninstall_command.clone(),
        update_command: p.update_command.clone(),
    }
}

/// Looks a package manager up by its exact, case-sensitive name. An unknown
/// name is not an error: the result is simply `None`.
pub fn get(name: &str) -> (r: Option<PackageManager>)
    ensures
        r is Some <==> exists|i: int|
            0 <= i < catalog_spec().len() && #[trigger] catalog_spec()[i].0 == name@,
        r matches Some(p) ==> exists|i: int|
            0 <= i < catalog_spec().len() && #[trigger] catalog_spec()[i].0 == name@
                && pm_view(p) == catalog_spec()[i],
{
    let wanted: String = name.to_owned();
    let entries = catalog();
    let mut k: usize = 0;
    while k < entries.len()
        invariant
            k <= entries@.len(),
            entries@.len() == catalog_spec().len(),
            forall|i: int| 0 <= i < entries@.len()
                ==> pm_view(#[trigger] entries@[i]) == catalog_spec()[i],
            wanted@ == name@,
            forall|i: int| 0 <= i < k ==> #[trigger] catalog_spec()[i].0 != name@,
        decreases entries@.len() - k,
    {
        if entries[k].name == wanted {
            let found = pm_clone(&entries[k]);
            assert(catalog_spec()[k as int].0 == name@);
            assert(pm_view(found) == catalog_spec()[k as int]);
            return Some(found);
        }
        k += 1;
    }
    None
}

/// No two entries of the default catalog share a name.
pub proof fn lemma_catalog_names_unique()
    ensures
        forall|i: int, j: int|
            0 <= i < catalog_spec().len() && 0 <= j < catalog_spec().len() && i != j
                ==> #[trigger] catalog_spec()[i].0 != #[trigger] catalog_spec()[j].0,
{
    reveal_strlit("dnf");
    reveal_strlit("pacman");
    reveal_strlit("apt");
    reveal_strlit("zypper");
    reveal_strlit("yum");
    assert("dnf"@.len() == 3);
    assert("pacman"@.len() == 6);
    assert("apt"@.len() == 3);
    assert("zypper"@.len() == 6);
    assert("yum"@.len() == 3);
    assert("dnf"@[0] == 'd');
    assert("pacman"@[0] == 'p');
    assert("apt"@[0] == 'a');
    assert("zypper"@[0] == 'z');
    assert("yum"@[0] == 'y');
    assert("dnf"@ != "pacman"@);
    assert("dnf"@ != "apt"@);
    assert("dnf"@ != "zypper"@);
    assert("dnf"@ != "yum"@);
    assert("pacman"@ != "apt"@);
    assert("pacman"@ != "zypper"@);
    assert("pacman"@ != "yum"@);
    assert("apt"@ != "zypper"@);
    assert("apt"@ != "yum"@);
    assert("zypper"@ != "yum"@);
}

} // verus!
