//! Encoding an interrupt line the way `KVM_IRQ_LINE` expects it.

use vstd::prelude::*;

use crate::host::{host_outcome, ErrorKind, HostArch, HostError, HostErrorView};
use crate::text::{append_decimal, decimal};

verus! {

/// `KVM_ARM_IRQ_TYPE_SHIFT`, which kvm-bindings offers on arm64 only: where the
/// interrupt type starts.
pub const KVM_ARM_IRQ_TYPE_SHIFT: u32 = 24;

/// `KVM_ARM_IRQ_TYPE_SPI`, which kvm-bindings offers on arm64 only: a shared
/// peripheral interrupt, the type of a device's line.
pub const KVM_ARM_IRQ_TYPE_SPI: u32 = 1;

/// `KVM_ARM_IRQ_NUM_MASK`, which kvm-bindings offers on arm64 only: the largest
/// interrupt number that fits below the vCPU index.
pub const KVM_ARM_IRQ_NUM_MASK: u32 = 0xffff;

/// Diagnostic of an interrupt number that does not fit.
pub open spec fn beyond_the_largest(line: u32) -> Seq<char> {
    "interrupt "@ + decimal(line as int) + " is beyond the largest GIC INTID KVM accepts"@
}

/// What `KVM_IRQ_LINE` takes for `line` on `arch`.
pub open spec fn encoded_line(arch: HostArch, line: u32) -> Result<u32, HostErrorView> {
    match arch {
        HostArch::X86_64 => Ok(line),
        HostArch::Arm64 => if line > KVM_ARM_IRQ_NUM_MASK {
            Err(
                HostErrorView::Custom {
                    kind: ErrorKind::InvalidInput,
                    message: beyond_the_largest(line),
                },
            )
        } else {
            Ok((0x0100_0000 + line) as u32)
        },
    }
}

/// Encodes an interrupt line on an x86_64 host, where it is the GSI itself.
pub fn encode_irq_line(line: u32) -> (encoded: Result<u32, HostError>)
    ensures
        encoded == Ok::<u32, HostError>(line),
{
    Ok(line)
}

/// Encodes an interrupt line on an arm64 host, where KVM packs an interrupt
/// type into the top byte, so a bare SPI INTID would address a CPU interrupt on
/// vCPU 0 instead of the device's line.
pub fn encode_irq_line_arm64(line: u32) -> (encoded: Result<u32, HostError>)
    ensures
        host_outcome(encoded) == encoded_line(HostArch::Arm64, line),
        line <= 0xffff ==> (encoded matches Ok(number) && number == 0x0100_0000 + line),
        line > 0xffff ==> (encoded matches Err(HostError::Custom { kind, message }) && kind
            == ErrorKind::InvalidInput && message@ == "interrupt "@ + decimal(line as int)
            + " is beyond the largest GIC INTID KVM accepts"@),
{
    // An INTID wider than the number field would overflow into the vCPU index
    // and the type, quietly targeting a different interrupt.
    if line > KVM_ARM_IRQ_NUM_MASK {
        let mut message = "interrupt ".to_owned();
        append_decimal(&mut message, line as u64);
        message.append(" is beyond the largest GIC INTID KVM accepts");
        return Err(HostError::new(ErrorKind::InvalidInput, message));
    }
    assert((1u32 << 24u32) | line == 0x0100_0000 + line) by (bit_vector)
        requires
            line <= 0xffff,
    ;
    Ok((KVM_ARM_IRQ_TYPE_SPI << KVM_ARM_IRQ_TYPE_SHIFT) | line)
}

/// Encodes an interrupt line on an `arch` host.
pub fn encode_irq_line_on(arch: HostArch, line: u32) -> (encoded: Result<u32, HostError>)
    ensures
        host_outcome(encoded) == encoded_line(arch, line),
        arch == HostArch::X86_64 ==> encoded == Ok::<u32, HostError>(line),
        arch == HostArch::Arm64 && line <= 0xffff ==> (encoded matches Ok(number) && number
            == 0x0100_0000 + line),
        arch == HostArch::Arm64 && line > 0xffff ==> (encoded matches Err(
            HostError::Custom { kind, message },
        ) && kind == ErrorKind::InvalidInput && message@ == "interrupt "@ + decimal(line as int)
            + " is beyond the largest GIC INTID KVM accepts"@),
{
    match arch {
        HostArch::X86_64 => encode_irq_line(line),
        HostArch::Arm64 => encode_irq_line_arm64(line),
    }
}

/// On arm64 an encoded line addresses the device's own line: its type is SPI,
/// its vCPU index is zero and its number is the line. A line that does not fit
/// the number field is refused.
pub proof fn an_arm64_line_carries_its_type(line: u32)
    ensures
        encoded_line(HostArch::Arm64, line) is Ok <==> line <= KVM_ARM_IRQ_NUM_MASK,
        encoded_line(HostArch::Arm64, line) matches Ok(encoded) ==> {
            &&& encoded >> KVM_ARM_IRQ_TYPE_SHIFT == KVM_ARM_IRQ_TYPE_SPI
            &&& (encoded >> 16u32) & 0xffu32 == 0
            &&& encoded & KVM_ARM_IRQ_NUM_MASK == line
        },
{
    if line <= KVM_ARM_IRQ_NUM_MASK {
        let encoded = (0x0100_0000 + line) as u32;
        assert(encoded >> 24u32 == 1u32 && (encoded >> 16u32) & 0xffu32 == 0 && encoded & 0xffffu32
            == line) by (bit_vector)
            requires
                line <= 0xffff,
                encoded == 0x0100_0000 + line,
        ;
    }
}

/// Different interrupt lines are never encoded alike.
pub proof fn encoding_keeps_lines_apart(arch: HostArch, a: u32, b: u32)
    requires
        encoded_line(arch, a) is Ok,
        encoded_line(arch, a) == encoded_line(arch, b),
    ensures
        a == b,
{
}

/// On x86_64 every line is the GSI itself: whatever the line, KVM is handed the
/// line, and none is refused.
pub proof fn an_x86_line_is_the_gsi_itself(line: u32)
    ensures
        encoded_line(HostArch::X86_64, line) == Ok::<u32, HostErrorView>(line),
        forall|encoded: Result<u32, HostError>| #[trigger]
            call_ensures(encode_irq_line_on, (HostArch::X86_64, line), encoded) ==> encoded
                == Ok::<u32, HostError>(line),
{
}

/// On arm64 KVM reads the shared peripheral interrupt type, 1, from the top
/// byte, vCPU 0 from the byte below it and the line itself from the low half.
/// A line that is wider than the low half is refused by name.
pub proof fn an_arm64_line_is_read_back_by_kvm(line: u32)
    ensures
        encoded_line(HostArch::Arm64, line) matches Ok(encoded) ==> {
            &&& line < 0x1_0000
            &&& encoded / 0x100_0000 == 1
            &&& encoded / 0x1_0000 % 0x100 == 0
            &&& encoded % 0x1_0000 == line
        },
        encoded_line(HostArch::Arm64, line) matches Err(error) ==> {
            &&& line >= 0x1_0000
            &&& error == (HostErrorView::Custom {
                kind: ErrorKind::InvalidInput,
                message: "interrupt "@ + decimal(line as int)
                    + " is beyond the largest GIC INTID KVM accepts"@,
            })
        },
{
}

} // verus!
