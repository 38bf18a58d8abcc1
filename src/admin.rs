use vstd::prelude::*;
use crate::error::{ContractError, ValidationIssue};

verus! {

/// The admin registry: the identities allowed to run privileged operations.
pub struct Config {
    pub admins: Vec<String>,
}

/// The views of a list of addresses.
pub open spec fn addrs_view(v: Seq<String>) -> Seq<Seq<char>> {
    v.map_values(|a: String| a@)
}

impl Config {
    pub open spec fn admin_set(&self) -> Seq<Seq<char>> {
        addrs_view(self.admins@)
    }

    /// The registry is never empty.
    pub open spec fn wf(&self) -> bool {
        self.admins@.len() > 0
    }

    pub open spec fn spec_is_admin(&self, a: Seq<char>) -> bool {
        self.admin_set().contains(a)
    }
}

/// Whether `addr` is one of the configured admins.
pub fn is_admin(cfg: &Config, addr: &String) -> (r: bool)
    ensures
        r == cfg.spec_is_admin(addr@),
{
    let mut i: usize = 0;
    while i < cfg.admins.len()
        invariant
            i <= cfg.admins@.len(),
            forall|j: int| 0 <= j < i ==> cfg.admins@[j]@ != addr@,
        decreases cfg.admins@.len() - i,
    {
        if cfg.admins[i] == *addr {
            assert(cfg.admin_set()[i as int] == addr@);
            return true;
        }
        i += 1;
    }
    proof {
        if cfg.admin_set().contains(addr@) {
            let k = choose|k: int| 0 <= k < cfg.admin_set().len() && cfg.admin_set()[k] == addr@;
            assert(cfg.admins@[k]@ == addr@);
        }
    }
    false
}

/// The authorization gate: `Unauthorized` unless `sender` is an admin.
pub fn check_admin(cfg: &Config, sender: &String) -> (r: Result<(), ContractError>)
    ensures
        r is Ok <==> cfg.spec_is_admin(sender@),
        r is Err ==> r == Err::<(), ContractError>(ContractError::Unauthorized),
{
    if is_admin(cfg, sender) {
        Ok(())
    } else {
        Err(ContractError::Unauthorized)
    }
}

/// A copy of a list of addresses.
pub fn copy_addrs(v: &Vec<String>) -> (r: Vec<String>)
    ensures
        r@ == v@,
{
    let mut out: Vec<String> = Vec::new();
    let mut i: usize = 0;
    while i < v.len()
        invariant
            i <= v@.len(),
            out@ == v@.subrange(0, i as int),
        decreases v@.len() - i,
    {
        out.push(v[i].clone());
        i += 1;
        assert(out@ =~= v@.subrange(0, i as int));
    }
    assert(out@ =~= v@);
    out
}

/// A copy of the registry.
pub fn copy_config(cfg: &Config) -> (r: Config)
    ensures
        r.admins@ == cfg.admins@,
{
    Config { admins: copy_addrs(&cfg.admins) }
}

/// The addresses of a replacement admin list once each has been validated,
/// or the first one that failed validation.
pub fn validated_addrs(v: &Vec<Result<String, String>>) -> (r: Result<Vec<String>, String>)
    ensures
        match r {
            Ok(out) => out@.len() == v@.len() && forall|i: int|
                0 <= i < v@.len() ==> v@[i] == Ok::<String, String>(#[trigger] out@[i]),
            Err(bad) => exists|i: int|
                0 <= i < v@.len() && v@[i] == Err::<String, String>(bad) && forall|j: int|
                    0 <= j < i ==> #[trigger] v@[j] is Ok,
        },
        r is Ok <==> forall|i: int| 0 <= i < v@.len() ==> #[trigger] v@[i] is Ok,
{
    let mut out: Vec<String> = Vec::new();
    let mut i: usize = 0;
    while i < v.len()
        invariant
            i <= v@.len(),
            out@.len() == i,
            forall|j: int| 0 <= j < i ==> v@[j] == Ok::<String, String>(#[trigger] out@[j]),
            forall|j: int| 0 <= j < i ==> #[trigger] v@[j] is Ok,
        decreases v@.len() - i,
    {
        match &v[i] {
            Ok(a) => {
                out.push(a.clone());
            },
            Err(bad) => {
                let b = bad.clone();
                assert(v@[i as int] == Err::<String, String>(b));
                assert(!(v@[i as int] is Ok));
                return Err(b);
            },
        }
        i += 1;
    }
    Ok(out)
}

/// The outcome of update-config by `sender` with `new_admins` on `cfg`,
/// and the registry it leaves (`next`). Only an admin may call it. With no
/// replacement list it changes nothing; an empty list is refused; a list
/// holding an address that failed validation is refused with the first such
/// address; otherwise the list replaces the admins. A refusal changes nothing.
pub open spec fn update_config_spec(
    cfg: Config,
    next: Config,
    sender: Seq<char>,
    new_admins: Option<Vec<Result<String, String>>>,
    r: Result<(), ContractError>,
) -> bool {
    &&& r is Err ==> next == cfg
    &&& if !cfg.spec_is_admin(sender) {
        r == Err::<(), ContractError>(ContractError::Unauthorized)
    } else {
        match new_admins {
            None => r is Ok && next == cfg,
            Some(list) => if list@.len() == 0 {
                r == Err::<(), ContractError>(
                    ContractError::Validation { issue: ValidationIssue::EmptyAdmins },
                )
            } else if forall|i: int| 0 <= i < list@.len() ==> #[trigger] list@[i] is Ok {
                r is Ok && next.admins@.len() == list@.len() && forall|i: int|
                    0 <= i < list@.len() ==> list@[i] == Ok::<String, String>(
                        #[trigger] next.admins@[i],
                    )
            } else {
                exists|i: int|
                    0 <= i < list@.len() && r == Err::<(), ContractError>(
                        ContractError::InvalidAddress { address: list@[i]->Err_0 },
                    ) && list@[i] is Err && forall|j: int| 0 <= j < i ==> #[trigger] list@[j] is Ok
            },
        }
    }
}

/// Update-config on the registry alone.
pub fn update_config(
    cfg: &mut Config,
    sender: &String,
    new_admins: Option<Vec<Result<String, String>>>,
) -> (r: Result<(), ContractError>)
    requires
        old(cfg).wf(),
    ensures
        final(cfg).wf(),
        update_config_spec(*old(cfg), *final(cfg), sender@, new_admins, r),
{
    check_admin(cfg, sender)?;
    match new_admins {
        None => Ok(()),
        Some(list) => {
            if list.len() == 0 {
                return Err(ContractError::Validation { issue: ValidationIssue::EmptyAdmins });
            }
            match validated_addrs(&list) {
                Ok(admins) => {
                    cfg.admins = admins;
                    Ok(())
                },
                Err(bad) => Err(ContractError::InvalidAddress { address: bad }),
            }
        },
    }
}

} // verus!
