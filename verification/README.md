# iree-rocket-hal

Register programs for the Rockchip RK3588 NPU ("Rocket"), verified with Verus.

- `src/builders.rs` — `Register<R>`, `RegisterMeta`, `RegCmd`, `Bits<N>` and the
  laws of field updates and regcmd packing.
- `src/builders/` — one module per block (PC, GLOBAL, CNA, DPU, DPU_RDMA,
  PPU_RDMA) with its register identities and field setters, and the named
  wire values.
- `src/conv.rs` — relocation of convolution programs onto DMA buffers and the
  BS (bias/scale) buffer layout.
- `src/activation.rs`, `src/elementwise.rs`, `src/device.rs` — the integer
  rules of the LUT task, the element-wise task types, and the PREP_BO deadline.
- `app/` — the ioctls and memory mappings of `/dev/accel/accel0` and the
  floating-point quantization helpers.
