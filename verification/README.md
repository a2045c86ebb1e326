# timewarp

Rollback and resimulation of component state for games with client-side prediction.

`src/` is the verified library. Components keep a history of their values and of the frames at
which they were alive. The systems decide when a snapshot from the server asks for a rollback,
what a component is restored to, and when a rollback is over. `src/laws.rs` states what holds of
them together.

Frames are numbered from 0. A death at a frame means that the component is gone at that frame.

`app/` makes a bevy plugin of it: the queries, the commands and the schedule.
