# rust_pets

A desktop pet (GP-Chan and GEMMI-Chan) whose decisions are verified with Verus.

- `src/` is the verified library:
  - `config`: the pet manifests (actions, frames, frame durations) and the
    embedded pets;
  - `pet`: the animation state of a pet (current action, frame on screen,
    loaded frames);
  - `labels`: what the pet says for each action and situation;
  - `llm`: the LLM settings, service addresses, the chat messages, and the
    requests for the Google API key to the system's credential store together
    with what the store's answers give;
  - `frames`: decoding the pets' frame images, and which of them fail;
  - `choice`: the weighted choice of what an idle pet does on its own;
  - `behavior`: the frame-by-frame decisions of the application (typing,
    hovering, following the pointer, patrolling, dragging, chatting, timeouts,
    reactions to system load, and the order of the steps that end a frame);
  - `text`, `chance`: text helpers and the random numbers and clock.
- `app/` is the program around it: the egui window, the system monitor, the
  embedded assets, the texture upload, the network requests, the credential
  store calls and the settings file. It measures the
  screen and the pointer, hands the library plain values (times in
  milliseconds, flags), and performs what the library decides.
