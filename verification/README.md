# govee2mqtt registry

The device registry at the heart of a bridge between Govee lights and appliances and a home
automation hub, written in Verus.

The library in `src/` decides; it does no I/O and holds no locks. It keeps the devices, chooses
the interface that a command goes to (local network, message broker or platform), follows a
command until its effect shows, polls devices, and lists their scenes. Whatever has to be done
outside is a stage of a task: the caller does it and hands the reply back.

- `src/state.rs`: the registry, labels and semaphores
- `src/control.rs`, `src/polling.rs`, `src/catalog.rs`: the tasks
- `src/device.rs`, `src/scene.rs`, `src/error.rs`: devices, scenes, errors
- `src/text.rs`, `src/order.rs`: comparing and sorting names
- `src/laws.rs`: what holds of the whole

`app/` is the service around it: an asynchronous registry behind a lock, which carries the tasks
out over the connections that it is given, and the JSON form of scene catalogs.

How a device is called and what its model can do change with the device and with time. They are
not kept in the registry; the caller works them out and hands them in (`DeviceNames` for looking up
a label, `DeviceFacts` for a command or a poll).

What is taken on trust is the behaviour of `str::to_ascii_lowercase` (`src/text.rs`), and
`serde_json::Value` as an opaque type (`src/control.rs`).
