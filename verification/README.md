# pyrucast — model layer

The physics declarations of a finite-element code, with their contracts
proved by Verus: what each physics reads and writes, how its matrix blocks
are laid out and numbered, how a multi-point constraint pairs its meshes
into relations and bordering blocks.

Layout:

- `src/` — the verified library.
  - `atoms.rs`, `containers/` — element types, sub-meshes and meshes,
    finite-element subspaces, field component lists, degree-of-freedom
    ordering and literal blocks.
  - `models/` — the shared vocabulary (matrix kinds, physics natures,
    relation senses, layouts, contributions, summaries), the symbolic side
    of assembly (`kernel.rs`: block patterns, triplet streams, nodal slots),
    and the physics: Mazars damage, elastoplasticity and its laws, shells,
    radiation, multi-point constraints.
  - `text.rs` — string comparison, joining and decimal writing.
- `app/` — what stays outside the proofs: serialisable copies of the enums,
  the floating-point constitutive updates, and the numeric drivers that feed
  element matrices and vectors through the verified patterns and slots.
- `tests/` — executable tests of the library.
