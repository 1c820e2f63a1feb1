# signal-terminal

Typed control-plane vocabulary of the Persona terminal transport, verified with
Verus.

- `src/vocabulary.rs`: primitive newtypes of the wire (names, counters, byte
  lists), each viewed as the value it carries, with accessors that hand it back
  (the narrowing ones truncated to the narrower integer).
- `src/contract.rs`: payload records, the `Query`/`Response` roots (also named
  `Input`/`Output`), the `From` lifts of each payload into its variant, the
  operation head of each request (`operation_kind`), and the laws that the
  operation heads and the request variants correspond one to one.
- `src/introspection.rs`: records that describe inspectable terminal state,
  with constructors that fix the state they name and getters that hand fields
  back.
- `app/lib.rs`: the rkyv archive of the daemon configuration, over archivable
  copies of the configuration records, and a `thiserror` copy of the archive
  error.
