# rk3588_support

Drivers for boards with a Rockchip RK3588, with the decisions verified by Verus.

- `src/` is the verified library. An operation that depends on the outside (user memory, the NPU,
  registers, clocks) is a state machine: it hands out a request and is resumed with the reply.
  `card` is the character device `/dev/dri/card1`, built on `driver` (the NPU's own ioctls), `drm`
  (the ioctls that every DRM driver answers), `gem` (shared buffers) and `npu` (what the device
  answers). `telemetry` keeps the account of where the time goes. `bringup` takes the NPU from its
  device tree node to a registered device. `pinctrl` and `soc` are about pins, `mbr` about
  partitions. `outside` holds the calls into other crates, whose contracts are trusted.
- `app/` carries the requests out: device registry, memory, registers, log.
- `tests/` runs the library.
