# fuwane

Host side of the FuwaNe plugin system: WebAssembly plugins drive voice
channels, sending audio frames that the voice driver plays.

- `src/` is the verified library: the channels and the pool of audio queues
  that feed their tracks (`binding::channel`), the keys under which channel
  state lives in plugin variables (`binding::communication`,
  `service::binding::channel`), how identifiers and frames cross the plugin
  boundary (`binding::wire`), reading audio for the voice driver
  (`binding::reader`), routing the host calls (`binding`), service
  configuration (`service::config`) and plugin function calls (`event`).
- `app/` binds the library to the Extism plugin runtime and the songbird voice
  driver, and gives the configuration its serde form.
- `tests/` exercises the library.
