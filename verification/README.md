# ockam_ebpf

Decision logic of the eBPF traffic-control classifier behind Ockam reliable TCP portals,
verified with Verus.

- `src/headers.rs`: the Ethernet, IPv4 and TCP header layout as functions on packet bytes,
  the bounds check `ptr_at`, and the values taken from `network_types` and `aya_ebpf`.
- `src/classify.rs`: `classify` gives the verdict for a packet seen on ingress or egress,
  or a request for more linear packet data; `resume_egress` finishes after that request;
  the `action` method of `Verdict` is the traffic-control action returned to the kernel.
- `src/ports.rs`: the port entries that user space hands to the program.
- `src/laws.rs`: properties of the classifier as a whole.
- `app/lib.rs`: the part that touches the kernel's socket buffer (`TcContext`).
