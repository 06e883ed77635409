# eventric_model

A verified model of the eventric event-sourcing library (decisions, actions
and projections over an event stream), written in Verus.

- `src/` holds the library, with its contracts and proofs:
  - `store`: the values exchanged with an event store (positions, identifiers,
    tags, data, candidate and persisted events, selections, errors);
  - `event`: the `Identified`, `Specified`, `Tagged` and `Event` traits, and the
    envelope logic of encoding an event and checking a stored event's identifier
    before decoding it;
  - `decision`, `action`: the traits that decisions and actions implement, and
    `Events`, which collects what they append;
  - `enact`: the state kept while an action is enacted against a stream, and
    what is appended at its end;
  - `projection`, `routing`: update events, dispatch events, recognition of a
    stored event by event type, and how a decision's update hands one event to
    its projections;
  - `derive`: what the derive macros read from their attributes and decide.
- `app/` holds what runs around it: serialization codecs (serde_json,
  revision), type-erased dispatch, the stream driver, and the derive macros'
  code generation (syn, quote, darling).
- `tests/` exercises the library on concrete values.
