# boxlite_hypervisor

The KVM backend of a virtual machine monitor on Linux x86_64 and arm64, with its
decisions verified by Verus: which memory slot a region gets, what stays as it
was when an ioctl fails, what an exit means to the VMM, and how a running vCPU is
forced out of the guest from another thread.

| Module | Responsibility |
| --- | --- |
| `vm` | Creating a VM, mapping memory, creating vCPUs, interrupt lines |
| `memory` / `slot_laws` | Memory-slot allocation, reusing a slot once its region is unmapped; what holds of slots over a VM's lifetime |
| `vcpu` / `exit` | Running a vCPU, completing pending I/O, decoding exits |
| `kick` | The `immediate_exit` byte and the signal that interrupts `KVM_RUN` |
| `irq` | Encoding interrupt lines |
| `host` / `kind` / `error` | Host failures, their kinds, and the failed operation |
| `text` | Numbers in diagnostics |

The library makes no ioctl and sends no signal of its own. It takes each such call
as a closure, and `app/` passes in the real ones: file descriptors, the shared `kvm_run` byte,
signals and locks. The few facts it takes on trust from other crates are the
functions marked `external_body`, each with a comment that says what is claimed.
