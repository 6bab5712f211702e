# d3os_virtio

VirtIO drivers of an operating system kernel, and the demonstrations that run on them, with
their behaviour stated as contracts and proved with Verus.

- `src/gpu/`: the driver of the VirtIO GPU: its requests as bytes (`wire`, `requests`, `virgl`),
  its state machine (`model`, `driver`), its initialization (`init`) and what holds of every run
  (`laws`).
- `src/pci/`: access to the configuration space, the enumeration of the PCI functions and the
  search among them.
- `src/dma.rs`, `src/hal.rs`: DMA buffers and the memory operations of a driver.
- `src/sound/`: the parameters and the course of a PCM playback.
- `src/vsock.rs`: a conversation with the host over a VirtIO socket.
- `src/renderer.rs`: software rendering into a framebuffer.
- `src/pong.rs`, `src/pong_frame.rs`, `src/rectangles.rs`, `src/rect_frame.rs`, `src/perf.rs`:
  the two graphical demonstrations, their course frame by frame, and their frame timing.
- `src/device_tests.rs`: tests of the devices of a running kernel.
- `app/`: the kernel side, which carries out what the library decides.

The drivers do not touch a device themselves. Each is a state machine that says what is to be
done next and is resumed with what came of it.
