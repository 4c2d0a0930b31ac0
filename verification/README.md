# stroke_joins

Verified bookkeeping and decisions of stroke joins for a path tessellator.

- `src/point_buffer.rs`: the three-point window of the newest contour points.
- `src/differentials.rs`, `src/history.rs`: the endpoint history and the
  optional derivative history that is updated together with it, with an
  abstract model (`HistoryState`) that every operation is specified against.
- `src/history_laws.rs`: properties of the history across operations.
- `src/join.rs`, `src/join_prepare.rs`: join styles, Arcs preparation, style
  selection and alignment of the side attachments.
- `src/join_mesh.rs`: join topology (interior fill, clipped fans, rectangles,
  Arcs meshes) and the checks that decide when an Arcs mesh is abandoned.
- `src/join_plan.rs`: the order of emission as a state machine from stage and
  outcome to the next action.
- `src/join_laws.rs`: properties of preparation, topology and emission order.
- `app/`: the floating-point conversions, the endpoint join sequence
  (preparation, side positions, alignment, base, planned shape), an
  implementation of the planned actions on an output sink, and the loop
  that performs them. The geometry that the decisions leave to their caller
  (side positions, round joins, rounded tips, the subunit cut, the Arcs
  construction and meshes) is supplied through the `JoinGeometry` trait and
  the construction closure.

Positions, derivative payloads and constructed geometry are generic and
opaque to the verified code; geometric tests on them are made by the caller
and passed in as plain values.
