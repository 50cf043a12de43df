//! Path/pattern-based `PROTECTED` matcher: a conservative, non-exhaustive
//! denylist over the text a [`ResourceId`] already carries. No filesystem
//! access, which keeps [`crate::policy::engine::classify`] pure.

use vstd::prelude::*;

use super::class::ReasonCode;
use crate::evidence::model::{LocatorView, ResourceId, ResourceKind, ResourceLocator};
use crate::path::{components, file_name, has_component, is_absolute, path_components, starts_with_abs};
use crate::text::{
    ascii_lower, chars_eq, chars_of, contains_exec, contains_seq, ends_with, ends_with_exec,
    to_ascii_lower,
};

verus! {

/// SSH/GPG/credential material: a `.ssh` or `.gnupg` component, a
/// `*.pem`/`*.key` file name (any case), or "credentials" in the file name
/// (any case).
pub open spec fn spec_is_credential_material(p: Seq<char>) -> bool {
    has_component(p, ".ssh"@) || has_component(p, ".gnupg"@) || match file_name(p) {
        Some(f) => {
            let l = ascii_lower(f);
            ends_with(l, ".pem"@) || ends_with(l, ".key"@) || contains_seq(l, "credentials"@)
        },
        None => false,
    }
}

/// Git internals: a `.git` component.
pub open spec fn spec_is_git_internals(p: Seq<char>) -> bool {
    has_component(p, ".git"@)
}

/// Terraform/OpenTofu state: a `.terraform` component, or a
/// `*.tfstate`/`*.tfstate.backup` file name.
pub open spec fn spec_is_infra_state(p: Seq<char>) -> bool {
    has_component(p, ".terraform"@) || match file_name(p) {
        Some(f) => ends_with(f, ".tfstate"@) || ends_with(f, ".tfstate.backup"@),
        None => false,
    }
}

/// System-critical paths: under `/System`, `/usr` (but not `/usr/local`),
/// `/bin`, `/sbin` or `/private/var/db`.
pub open spec fn spec_is_system_path(p: Seq<char>) -> bool {
    !starts_with_abs(p, seq!["usr"@, "local"@]) && (starts_with_abs(p, seq!["System"@])
        || starts_with_abs(p, seq!["usr"@]) || starts_with_abs(p, seq!["bin"@]) || starts_with_abs(
        p,
        seq!["sbin"@],
    ) || starts_with_abs(p, seq!["private"@, "var"@, "db"@]))
}

/// External/network/device mount points: under `/Volumes`, `/dev`,
/// `/Network` or `/net`.
pub open spec fn spec_is_unsafe_mount(p: Seq<char>) -> bool {
    starts_with_abs(p, seq!["Volumes"@]) || starts_with_abs(p, seq!["dev"@]) || starts_with_abs(
        p,
        seq!["Network"@],
    ) || starts_with_abs(p, seq!["net"@])
}

/// The protected category a resource falls in, checked in this order:
/// Docker image cache (a possible persistent volume), then for path
/// resources credential material, git internals, infra state, system
/// paths, unsafe mounts.
pub open spec fn spec_protected_reason(r: ResourceId) -> Option<ReasonCode> {
    if r.kind == ResourceKind::DockerImageCache {
        Some(ReasonCode::ProtectedPersistentVolume)
    } else {
        match r.locator@ {
            LocatorView::Path(p) => if spec_is_credential_material(p) {
                Some(ReasonCode::ProtectedCredentialMaterial)
            } else if spec_is_git_internals(p) {
                Some(ReasonCode::ProtectedGitInternals)
            } else if spec_is_infra_state(p) {
                Some(ReasonCode::ProtectedInfraState)
            } else if spec_is_system_path(p) {
                Some(ReasonCode::ProtectedSystemPath)
            } else if spec_is_unsafe_mount(p) {
                Some(ReasonCode::ProtectedUnsafeMountOrSymlink)
            } else {
                None
            },
            LocatorView::Tool(_, _) => None,
        }
    }
}

/// The views of a vector of character vectors.
pub open spec fn views(v: Seq<Vec<char>>) -> Seq<Seq<char>> {
    v.map_values(|x: Vec<char>| x@)
}

fn has_name(comps: &Vec<Vec<char>>, name: &str) -> (r: bool)
    ensures
        r == views(comps@).contains(name@),
{
    let n = chars_of(name);
    let mut i: usize = 0;
    while i < comps.len()
        invariant
            n@ == name@,
            0 <= i <= comps@.len(),
            forall|j: int| 0 <= j < i ==> comps@[j]@ != name@,
        decreases comps@.len() - i,
    {
        if chars_eq(comps[i].as_slice(), n.as_slice()) {
            assert(views(comps@)[i as int] == name@);
            return true;
        }
        i = i + 1;
    }
    assert forall|j: int| 0 <= j < views(comps@).len() implies views(comps@)[j] != name@ by {
        assert(views(comps@)[j] == comps@[j]@);
    }
    false
}

fn starts_with_names(absolute: bool, comps: &Vec<Vec<char>>, names: &[&str]) -> (r: bool)
    ensures
        r == (absolute && views(comps@).len() >= names@.len() && views(comps@).subrange(
            0,
            names@.len() as int,
        ) == names@.map_values(|s: &str| s@)),
{
    if !absolute || comps.len() < names.len() {
        return false;
    }
    let mut i: usize = 0;
    while i < names.len()
        invariant
            comps@.len() >= names@.len(),
            0 <= i <= names@.len(),
            forall|j: int| 0 <= j < i ==> comps@[j]@ == names@[j]@,
        decreases names@.len() - i,
    {
        let n = chars_of(names[i]);
        if !chars_eq(comps[i].as_slice(), n.as_slice()) {
            assert(views(comps@).subrange(0, names@.len() as int)[i as int] != names@.map_values(
                |s: &str| s@,
            )[i as int]);
            return false;
        }
        i = i + 1;
    }
    assert(views(comps@).subrange(0, names@.len() as int) =~= names@.map_values(|s: &str| s@));
    true
}

fn protected_path_reason(path: &String) -> (r: Option<ReasonCode>)
    ensures
        r == (if spec_is_credential_material(path@) {
            Some(ReasonCode::ProtectedCredentialMaterial)
        } else if spec_is_git_internals(path@) {
            Some(ReasonCode::ProtectedGitInternals)
        } else if spec_is_infra_state(path@) {
            Some(ReasonCode::ProtectedInfraState)
        } else if spec_is_system_path(path@) {
            Some(ReasonCode::ProtectedSystemPath)
        } else if spec_is_unsafe_mount(path@) {
            Some(ReasonCode::ProtectedUnsafeMountOrSymlink)
        } else {
            None
        }),
{
    let comps = path_components(path.as_str());
    let ghost cs = components(path@);
    assert(views(comps@) =~= cs);
    let chars = chars_of(path.as_str());
    let absolute = chars.len() > 0 && chars[0] == '/';
    assert(absolute == is_absolute(path@));
    let n = comps.len();
    let name: Option<&Vec<char>> = if n == 0 {
        None
    } else {
        let last = &comps[n - 1];
        let dotdot = chars_of("..");
        proof {
            reveal_strlit("..");
            assert(dotdot@ =~= seq!['.', '.']);
        }
        if chars_eq(last.as_slice(), dotdot.as_slice()) {
            None
        } else {
            Some(last)
        }
    };
    assert(match name {
        Some(f) => file_name(path@) == Some(f@),
        None => file_name(path@) is None,
    }) by {
        if n > 0 {
            assert(cs.last() == comps@[n - 1]@);
        }
    }
    let credential = has_name(&comps, ".ssh") || has_name(&comps, ".gnupg") || match name {
        Some(f) => {
            let l = to_ascii_lower(f);
            ends_with_exec(&l, &chars_of(".pem")) || ends_with_exec(&l, &chars_of(".key"))
                || contains_exec(&l, &chars_of("credentials"))
        },
        None => false,
    };
    if credential {
        return Some(ReasonCode::ProtectedCredentialMaterial);
    }
    if has_name(&comps, ".git") {
        return Some(ReasonCode::ProtectedGitInternals);
    }
    let infra = has_name(&comps, ".terraform") || match name {
        Some(f) => ends_with_exec(f, &chars_of(".tfstate")) || ends_with_exec(
            f,
            &chars_of(".tfstate.backup"),
        ),
        None => false,
    };
    if infra {
        return Some(ReasonCode::ProtectedInfraState);
    }
    let usr_local: [&str; 2] = ["usr", "local"];
    let system: [&str; 1] = ["System"];
    let usr: [&str; 1] = ["usr"];
    let bin: [&str; 1] = ["bin"];
    let sbin: [&str; 1] = ["sbin"];
    let var_db: [&str; 3] = ["private", "var", "db"];
    assert(usr_local@.map_values(|s: &str| s@) =~= seq!["usr"@, "local"@]);
    assert(system@.map_values(|s: &str| s@) =~= seq!["System"@]);
    assert(usr@.map_values(|s: &str| s@) =~= seq!["usr"@]);
    assert(bin@.map_values(|s: &str| s@) =~= seq!["bin"@]);
    assert(sbin@.map_values(|s: &str| s@) =~= seq!["sbin"@]);
    assert(var_db@.map_values(|s: &str| s@) =~= seq!["private"@, "var"@, "db"@]);
    let is_system = !starts_with_names(absolute, &comps, usr_local.as_slice()) && (
    starts_with_names(absolute, &comps, system.as_slice()) || starts_with_names(
        absolute,
        &comps,
        usr.as_slice(),
    ) || starts_with_names(absolute, &comps, bin.as_slice()) || starts_with_names(
        absolute,
        &comps,
        sbin.as_slice(),
    ) || starts_with_names(absolute, &comps, var_db.as_slice()));
    if is_system {
        return Some(ReasonCode::ProtectedSystemPath);
    }
    let volumes: [&str; 1] = ["Volumes"];
    let dev: [&str; 1] = ["dev"];
    let network: [&str; 1] = ["Network"];
    let net: [&str; 1] = ["net"];
    assert(volumes@.map_values(|s: &str| s@) =~= seq!["Volumes"@]);
    assert(dev@.map_values(|s: &str| s@) =~= seq!["dev"@]);
    assert(network@.map_values(|s: &str| s@) =~= seq!["Network"@]);
    assert(net@.map_values(|s: &str| s@) =~= seq!["net"@]);
    let unsafe_mount = starts_with_names(absolute, &comps, volumes.as_slice()) || starts_with_names(
        absolute,
        &comps,
        dev.as_slice(),
    ) || starts_with_names(absolute, &comps, network.as_slice()) || starts_with_names(
        absolute,
        &comps,
        net.as_slice(),
    );
    if unsafe_mount {
        return Some(ReasonCode::ProtectedUnsafeMountOrSymlink);
    }
    None
}

/// The protected category `resource` falls in, if any. Runs before any
/// evidence-freshness logic: a Protected classification never depends on
/// the evidence.
pub fn protected_reason(resource: &ResourceId) -> (r: Option<ReasonCode>)
    ensures
        r == spec_protected_reason(*resource),
{
    if resource.kind == ResourceKind::DockerImageCache {
        return Some(ReasonCode::ProtectedPersistentVolume);
    }
    match &resource.locator {
        ResourceLocator::Path(p) => protected_path_reason(p),
        ResourceLocator::Tool { .. } => None,
    }
}


/// A path resource (anything but a Docker image cache) with a `.ssh` or
/// `.gnupg` component, or whose file name, lower-cased, ends in `.pem` or
/// `.key` or contains `credentials`, is protected as credential material.
pub proof fn lemma_credential_material_is_protected(r: ResourceId, p: Seq<char>)
    requires
        r.kind != ResourceKind::DockerImageCache,
        r.locator@ == LocatorView::Path(p),
        has_component(p, ".ssh"@) || has_component(p, ".gnupg"@) || (file_name(p) matches Some(f) && (
        ends_with(ascii_lower(f), ".pem"@) || ends_with(ascii_lower(f), ".key"@) || contains_seq(
            ascii_lower(f),
            "credentials"@,
        ))),
    ensures
        spec_protected_reason(r) == Some(ReasonCode::ProtectedCredentialMaterial),
{
}

/// A path through a `.git` directory is always protected, as git internals
/// unless it is already credential material.
pub proof fn lemma_git_internals_are_protected(r: ResourceId, p: Seq<char>)
    requires
        r.kind != ResourceKind::DockerImageCache,
        r.locator@ == LocatorView::Path(p),
        has_component(p, ".git"@),
    ensures
        spec_protected_reason(r) == Some(ReasonCode::ProtectedCredentialMaterial) || spec_protected_reason(r)
            == Some(ReasonCode::ProtectedGitInternals),
{
}

/// Terraform/OpenTofu state (a `.terraform` component, a `*.tfstate` or
/// `*.tfstate.backup` file) is always protected, as infra state unless an
/// earlier category (credentials, git internals) already applies.
pub proof fn lemma_infra_state_is_protected(r: ResourceId, p: Seq<char>)
    requires
        r.kind != ResourceKind::DockerImageCache,
        r.locator@ == LocatorView::Path(p),
        has_component(p, ".terraform"@) || (file_name(p) matches Some(f) && (ends_with(f, ".tfstate"@)
            || ends_with(f, ".tfstate.backup"@))),
    ensures
        spec_protected_reason(r) == Some(ReasonCode::ProtectedCredentialMaterial) || spec_protected_reason(r)
            == Some(ReasonCode::ProtectedGitInternals) || spec_protected_reason(r) == Some(
            ReasonCode::ProtectedInfraState,
        ),
{
}

/// The system-critical trees (`/System`, `/bin`, `/sbin`,
/// `/private/var/db`, and `/usr` outside `/usr/local`).
pub open spec fn under_system_tree(p: Seq<char>) -> bool {
    !starts_with_abs(p, seq!["usr"@, "local"@]) && (starts_with_abs(p, seq!["System"@])
        || starts_with_abs(p, seq!["usr"@]) || starts_with_abs(p, seq!["bin"@]) || starts_with_abs(
        p,
        seq!["sbin"@],
    ) || starts_with_abs(p, seq!["private"@, "var"@, "db"@]))
}

/// The mount points (`/Volumes`, `/dev`, `/Network`, `/net`).
pub open spec fn under_mount_point(p: Seq<char>) -> bool {
    starts_with_abs(p, seq!["Volumes"@]) || starts_with_abs(p, seq!["dev"@]) || starts_with_abs(
        p,
        seq!["Network"@],
    ) || starts_with_abs(p, seq!["net"@])
}

/// Anything in a system-critical tree is always protected, as a system
/// path unless an earlier category already applies.
pub proof fn lemma_system_paths_are_protected(r: ResourceId, p: Seq<char>)
    requires
        r.kind != ResourceKind::DockerImageCache,
        r.locator@ == LocatorView::Path(p),
        under_system_tree(p),
    ensures
        spec_protected_reason(r) is Some,
        spec_protected_reason(r) != Some(ReasonCode::ProtectedUnsafeMountOrSymlink),
        spec_protected_reason(r) != Some(ReasonCode::ProtectedPersistentVolume),
{
}

/// Anything under a mount point is always protected.
pub proof fn lemma_mount_paths_are_protected(r: ResourceId, p: Seq<char>)
    requires
        r.kind != ResourceKind::DockerImageCache,
        r.locator@ == LocatorView::Path(p),
        under_mount_point(p),
    ensures
        spec_protected_reason(r) is Some,
        spec_protected_reason(r) != Some(ReasonCode::ProtectedPersistentVolume),
{
}

/// A path showing none of the protected signals, and a tool-located
/// resource, of any kind but a Docker image cache, is not protected.
pub proof fn lemma_unflagged_is_not_protected(r: ResourceId)
    requires
        r.kind != ResourceKind::DockerImageCache,
        r.locator@ matches LocatorView::Path(p) ==> {
            &&& !has_component(p, ".ssh"@)
            &&& !has_component(p, ".gnupg"@)
            &&& !has_component(p, ".git"@)
            &&& !has_component(p, ".terraform"@)
            &&& (file_name(p) matches Some(f) ==> !ends_with(ascii_lower(f), ".pem"@) && !ends_with(
                ascii_lower(f),
                ".key"@,
            ) && !contains_seq(ascii_lower(f), "credentials"@) && !ends_with(f, ".tfstate"@)
                && !ends_with(f, ".tfstate.backup"@))
            &&& !under_system_tree(p)
            &&& !under_mount_point(p)
        },
    ensures
        spec_protected_reason(r) is None,
{
}

/// A Docker image cache may hold persistent volumes: always protected as
/// such, wherever it is.
pub proof fn lemma_docker_images_are_protected(r: ResourceId)
    requires
        r.kind == ResourceKind::DockerImageCache,
    ensures
        spec_protected_reason(r) == Some(ReasonCode::ProtectedPersistentVolume),
{
}

} // verus!
