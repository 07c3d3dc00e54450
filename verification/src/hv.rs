//! The hypervisor as the library sees it: the types of `applevisor` that the
//! test suite holds, the session that holds them, and one trusted wrapper per
//! call that the suite makes.
//!
//! Every call ends in Apple's Hypervisor.framework, whose answers depend on
//! the machine and on what the guest did; so the wrappers promise nothing
//! about what the hypervisor answers. What they promise is bookkeeping: the
//! virtual machine, the vCPU and the mappings live in a `Session` whose
//! fields only this module can touch, every call goes through a wrapper that
//! appends the call to the session's history, and every wrapper returns a
//! receipt (which only this module can make) of the call and its outcome.
use vstd::prelude::*;

use crate::plan::Call;

verus! {

/// The process's virtual machine; it is destroyed when dropped. Opaque.
#[verifier::external_type_specification]
#[verifier::external_body]
pub struct ExVirtualMachine(applevisor::VirtualMachine);

/// A virtual CPU. Opaque.
#[verifier::external_type_specification]
#[verifier::external_body]
pub struct ExVcpu(applevisor::Vcpu);

/// Host memory that can be mapped into the guest. Opaque.
#[verifier::external_type_specification]
#[verifier::external_body]
pub struct ExMapping(applevisor::Mapping);

// The next six types hold plain data only (enums whose variants hold at most
// an integer, and structs of public fields of such types), so they are declared without `external_body`: Verus
// reads their variants and fields, and verified code builds and reads them
// as the tests do.

/// An error of the hypervisor: one of its named kinds, or an unknown code.
#[verifier::external_type_specification]
pub struct ExHypervisorError(applevisor::HypervisorError);

/// The vCPU registers that `get_reg` and `set_reg` name.
#[verifier::external_type_specification]
pub struct ExReg(applevisor::Reg);

/// The access permissions of a guest mapping.
#[verifier::external_type_specification]
pub struct ExMemPerms(applevisor::MemPerms);

/// Why a vCPU returned to the host.
#[verifier::external_type_specification]
pub struct ExExitReason(applevisor::ExitReason);

/// The exception details of a vCPU exit: syndrome and faulting addresses.
#[verifier::external_type_specification]
pub struct ExVcpuExitException(applevisor::VcpuExitException);

/// What `Vcpu::get_exit_info` returns: a reason and the exception details.
#[verifier::external_type_specification]
pub struct ExVcpuExit(applevisor::VcpuExit);

/// How a call came out, as its receipt records it.
pub enum Outcome {
    /// The call succeeded and gave nothing back that the suite reads.
    Succeeded,
    /// A read succeeded with this value.
    Read(u64),
    /// The exit record that the vCPU reported.
    Exit(applevisor::VcpuExit),
    /// The hypervisor refused the call with this error.
    Refused(applevisor::HypervisorError),
    /// The host could not lay out the memory of a mapping.
    Failed,
}

/// The record of one call into the hypervisor. Its fields are private, so a
/// receipt comes only from the wrapper that made the call.
pub struct Receipt {
    call: Call,
    outcome: Outcome,
}

impl Receipt {
    /// The call that was made, with its arguments.
    pub closed spec fn call(&self) -> Call {
        self.call
    }

    /// How the call came out.
    pub closed spec fn outcome(&self) -> Outcome {
        self.outcome
    }

    /// How the call came out.
    pub fn outcome_of(&self) -> (o: &Outcome)
        ensures
            *o == self.outcome(),
    {
        &self.outcome
    }
}

/// The handles of one run of a test: its mappings, its vCPU and its virtual
/// machine (dropped in that order), and the history of the calls made
/// through them. The fields are private: only the wrappers below reach the
/// hypervisor, and each appends its call to the history.
pub struct Session {
    mems: [Option<applevisor::Mapping>; 2],
    vcpu: Option<applevisor::Vcpu>,
    vm: Option<applevisor::VirtualMachine>,
    history: Ghost<Seq<Call>>,
}

impl Session {
    /// Every call made through this session, in order.
    pub closed spec fn history(&self) -> Seq<Call> {
        self.history@
    }

    /// The session holds a vCPU.
    pub closed spec fn has_vcpu(&self) -> bool {
        self.vcpu is Some
    }

    /// The session holds mapping `slot`.
    pub closed spec fn has_mapping(&self, slot: usize) -> bool {
        slot < 2 && self.mems[slot as int] is Some
    }

    /// A session that holds nothing and has made no call.
    pub fn new() -> (s: Session)
        ensures
            s.history() == Seq::<Call>::empty(),
            !s.has_vcpu(),
            !s.has_mapping(0),
            !s.has_mapping(1),
    {
        Session { mems: [None, None], vcpu: None, vm: None, history: Ghost(Seq::empty()) }
    }
}

/// Session `s` is `old` with `call` appended to its history and the same
/// handles.
pub open spec fn appended(s: Session, old: Session, call: Call) -> bool {
    &&& s.history() == old.history().push(call)
    &&& s.has_vcpu() == old.has_vcpu()
    &&& s.has_mapping(0) == old.has_mapping(0)
    &&& s.has_mapping(1) == old.has_mapping(1)
}

/// `Succeeded`, or `Refused` with the hypervisor's error.
pub open spec fn succeeded_or_refused(o: Outcome) -> bool {
    o is Succeeded || o is Refused
}

/// Calls `applevisor::VirtualMachine::new` (`hv_vm_create`) and keeps the
/// virtual machine in the session. Whether the hypervisor grants one is not
/// stated.
#[verifier::external_body]
pub(crate) fn create_vm(s: &mut Session) -> (r: Receipt)
    ensures
        appended(*final(s), *old(s), Call::CreateVm),
        r.call() == Call::CreateVm,
        succeeded_or_refused(r.outcome()),
{
    let outcome = match applevisor::VirtualMachine::new() {
        Ok(vm) => { s.vm = Some(vm); Outcome::Succeeded },
        Err(e) => Outcome::Refused(e),
    };
    Receipt { call: Call::CreateVm, outcome }
}

/// Calls `applevisor::Vcpu::new` (`hv_vcpu_create`) and keeps the vCPU in
/// the session. Whether one is granted is not stated.
#[verifier::external_body]
pub(crate) fn create_vcpu(s: &mut Session) -> (r: Receipt)
    ensures
        final(s).history() == old(s).history().push(Call::CreateVcpu),
        final(s).has_vcpu() == (old(s).has_vcpu() || r.outcome() is Succeeded),
        final(s).has_mapping(0) == old(s).has_mapping(0),
        final(s).has_mapping(1) == old(s).has_mapping(1),
        r.call() == Call::CreateVcpu,
        succeeded_or_refused(r.outcome()),
{
    let outcome = match applevisor::Vcpu::new() {
        Ok(v) => { s.vcpu = Some(v); Outcome::Succeeded },
        Err(e) => Outcome::Refused(e),
    };
    Receipt { call: Call::CreateVcpu, outcome }
}

/// Calls `Vcpu::set_trap_debug_exceptions(true)` on the session's vCPU; its
/// answer comes from the hypervisor and is not stated.
#[verifier::external_body]
pub(crate) fn trap_debug_exceptions(s: &mut Session) -> (r: Receipt)
    requires
        old(s).has_vcpu(),
    ensures
        appended(*final(s), *old(s), Call::TrapDebugExceptions),
        r.call() == Call::TrapDebugExceptions,
        succeeded_or_refused(r.outcome()),
{
    let outcome = match s.vcpu.as_ref().unwrap().set_trap_debug_exceptions(true) {
        Ok(()) => Outcome::Succeeded,
        Err(e) => Outcome::Refused(e),
    };
    Receipt { call: Call::TrapDebugExceptions, outcome }
}

/// Calls `Vcpu::set_trap_debug_reg_accesses(true)` on the session's vCPU;
/// its answer comes from the hypervisor and is not stated.
#[verifier::external_body]
pub(crate) fn trap_debug_reg_accesses(s: &mut Session) -> (r: Receipt)
    requires
        old(s).has_vcpu(),
    ensures
        appended(*final(s), *old(s), Call::TrapDebugRegAccesses),
        r.call() == Call::TrapDebugRegAccesses,
        succeeded_or_refused(r.outcome()),
{
    let outcome = match s.vcpu.as_ref().unwrap().set_trap_debug_reg_accesses(true) {
        Ok(()) => Outcome::Succeeded,
        Err(e) => Outcome::Refused(e),
    };
    Receipt { call: Call::TrapDebugRegAccesses, outcome }
}

/// Calls `Mappable::new` for `applevisor::Mapping`, which allocates
/// page-aligned (0x4000) zeroed host memory for a guest mapping, and keeps it
/// in the session as mapping `slot`. Its only error comes from
/// `Layout::from_size_align(size, 0x4000)`, which fails exactly when `size`
/// rounded up to a multiple of 0x4000 exceeds `isize::MAX`, that is when
/// `size > isize::MAX - 0x3fff`. A size of zero would hand `alloc_zeroed` a
/// zero-size layout, which std leaves undefined, so `requires` rules it out.
#[verifier::external_body]
pub(crate) fn create_mapping(s: &mut Session, slot: usize, size: usize) -> (r: Receipt)
    requires
        slot < 2,
        size >= 1,
    ensures
        final(s).history() == old(s).history().push(Call::CreateMapping { slot, size }),
        final(s).has_vcpu() == old(s).has_vcpu(),
        forall|k: usize| #[trigger] final(s).has_mapping(k) == (old(s).has_mapping(k)
            || (k == slot && r.outcome() is Succeeded)),
        r.call() == (Call::CreateMapping { slot, size }),
        r.outcome() == (if size <= isize::MAX - 0x3fff {
            Outcome::Succeeded
        } else {
            Outcome::Failed
        }),
{
    let outcome = match <applevisor::Mapping as applevisor::Mappable>::new(size) {
        Ok(m) => { s.mems[slot] = Some(m); Outcome::Succeeded },
        Err(_) => Outcome::Failed,
    };
    Receipt { call: Call::CreateMapping { slot, size }, outcome }
}

/// Calls `Mappable::map` on mapping `slot`, which maps it into the guest at
/// `guest_addr` with `hv_vm_map`. It fails with `Busy` on a mapping that is
/// already mapped; otherwise the hypervisor decides, so the outcome is not
/// stated.
#[verifier::external_body]
pub(crate) fn map_mapping(
    s: &mut Session,
    slot: usize,
    guest_addr: u64,
    perms: applevisor::MemPerms,
) -> (r: Receipt)
    requires
        old(s).has_mapping(slot),
    ensures
        appended(*final(s), *old(s), Call::MapMemory { slot, guest_addr, perms }),
        r.call() == (Call::MapMemory { slot, guest_addr, perms }),
        succeeded_or_refused(r.outcome()),
{
    let m = s.mems[slot].as_mut().unwrap();
    let outcome = match applevisor::Mappable::map(m, guest_addr, perms) {
        Ok(()) => Outcome::Succeeded,
        Err(e) => Outcome::Refused(e),
    };
    Receipt { call: Call::MapMemory { slot, guest_addr, perms }, outcome }
}

/// Calls `Mappable::write_dword` on mapping `slot`, which copies the four
/// little-endian bytes of `word` to guest address `guest_addr` and returns
/// the number of bytes written, 4. It fails when the mapping is not mapped or
/// the four bytes leave it; which holds is not stated, as the mapping's state
/// is opaque here. It panics when `guest_addr + 4` overflows, which
/// `requires` rules out (or when the mapped range's own end overflows, which
/// no mapping reaches).
#[verifier::external_body]
pub(crate) fn write_dword(s: &mut Session, slot: usize, guest_addr: u64, word: u32) -> (r: Receipt)
    requires
        old(s).has_mapping(slot),
        guest_addr <= u64::MAX - 4,
    ensures
        appended(*final(s), *old(s), Call::WriteDword { slot, guest_addr, word }),
        r.call() == (Call::WriteDword { slot, guest_addr, word }),
        succeeded_or_refused(r.outcome()),
{
    let m = s.mems[slot].as_mut().unwrap();
    let outcome = match applevisor::Mappable::write_dword(m, guest_addr, word) {
        Ok(_) => Outcome::Succeeded,
        Err(e) => Outcome::Refused(e),
    };
    Receipt { call: Call::WriteDword { slot, guest_addr, word }, outcome }
}

/// Calls `Mappable::read_dword` on mapping `slot`, which reads four
/// little-endian bytes at guest address `guest_addr`. What it reads is guest
/// memory, which the guest may have changed, so the value is not stated. It
/// panics when `guest_addr + 4` overflows, which `requires` rules out.
#[verifier::external_body]
pub(crate) fn read_dword(s: &mut Session, slot: usize, guest_addr: u64) -> (r: Receipt)
    requires
        old(s).has_mapping(slot),
        guest_addr <= u64::MAX - 4,
    ensures
        appended(*final(s), *old(s), Call::ReadDword { slot, guest_addr }),
        r.call() == (Call::ReadDword { slot, guest_addr }),
        r.outcome() is Read || r.outcome() is Refused,
{
    let m = s.mems[slot].as_ref().unwrap();
    let outcome = match applevisor::Mappable::read_dword(m, guest_addr) {
        Ok(v) => Outcome::Read(v as u64),
        Err(e) => Outcome::Refused(e),
    };
    Receipt { call: Call::ReadDword { slot, guest_addr }, outcome }
}

/// Calls `Vcpu::set_reg` (`hv_vcpu_set_reg`) on the session's vCPU; the
/// hypervisor's answer is not stated.
#[verifier::external_body]
pub(crate) fn set_reg(s: &mut Session, reg: applevisor::Reg, value: u64) -> (r: Receipt)
    requires
        old(s).has_vcpu(),
    ensures
        appended(*final(s), *old(s), Call::SetReg { reg, value }),
        r.call() == (Call::SetReg { reg, value }),
        succeeded_or_refused(r.outcome()),
{
    let outcome = match s.vcpu.as_ref().unwrap().set_reg(reg, value) {
        Ok(()) => Outcome::Succeeded,
        Err(e) => Outcome::Refused(e),
    };
    Receipt { call: Call::SetReg { reg, value }, outcome }
}

/// Calls `Vcpu::get_reg` (`hv_vcpu_get_reg`) on the session's vCPU; the
/// value is the vCPU's and is not stated.
#[verifier::external_body]
pub(crate) fn get_reg(s: &mut Session, reg: applevisor::Reg) -> (r: Receipt)
    requires
        old(s).has_vcpu(),
    ensures
        appended(*final(s), *old(s), Call::GetReg { reg }),
        r.call() == (Call::GetReg { reg }),
        r.outcome() is Read || r.outcome() is Refused,
{
    let outcome = match s.vcpu.as_ref().unwrap().get_reg(reg) {
        Ok(v) => Outcome::Read(v),
        Err(e) => Outcome::Refused(e),
    };
    Receipt { call: Call::GetReg { reg }, outcome }
}

/// Calls `Vcpu::run` (`hv_vcpu_run`) on the session's vCPU, which runs the
/// guest until it exits; the outcome is the hypervisor's and is not stated.
#[verifier::external_body]
pub(crate) fn run_vcpu(s: &mut Session) -> (r: Receipt)
    requires
        old(s).has_vcpu(),
    ensures
        appended(*final(s), *old(s), Call::Run),
        r.call() == Call::Run,
        succeeded_or_refused(r.outcome()),
{
    let outcome = match s.vcpu.as_ref().unwrap().run() {
        Ok(()) => Outcome::Succeeded,
        Err(e) => Outcome::Refused(e),
    };
    Receipt { call: Call::Run, outcome }
}

/// Calls `Vcpu::get_exit_info` on the session's vCPU, which copies its last
/// exit record; the record is the hypervisor's and is not stated.
#[verifier::external_body]
pub(crate) fn exit_info(s: &mut Session) -> (r: Receipt)
    requires
        old(s).has_vcpu(),
    ensures
        appended(*final(s), *old(s), Call::ExitInfo),
        r.call() == Call::ExitInfo,
        r.outcome() is Exit,
{
    let exit = s.vcpu.as_ref().unwrap().get_exit_info();
    Receipt { call: Call::ExitInfo, outcome: Outcome::Exit(exit) }
}

/// The `Debug` text of a hypervisor error: `HypervisorError { code: <code>,
/// description: "<description>" }`. It depends on the error alone.
pub uninterp spec fn hv_error_debug(e: applevisor::HypervisorError) -> Seq<char>;

/// Formats a hypervisor error with its `Debug` impl.
#[verifier::external_body]
pub(crate) fn hv_error_text(e: &applevisor::HypervisorError) -> (s: String)
    ensures
        s@ == hv_error_debug(*e),
{
    format!("{:?}", e)
}

} // verus!
