# threemf2

A library for 3MF (3D Manufacturing Format) models and packages, written in Verus:
its functions carry `requires`/`ensures` contracts that the verifier proves.

## Layout

- `src/` — the verified library.
  - `domain/` — the 3MF model as plain data (model, resources, objects, meshes, build,
    and the material, slice, beam lattice, boolean and displacement extensions), and
    the reading of integer attributes of displacement elements.
  - `query.rs`, `package_query.rs` — read-only views over a model and over all models
    of a package.
  - `builder/` — the model builder: object and resource identifiers handed out in
    order, the rules of the production extension, and the required extensions derived
    from what the model uses.
  - `validator.rs`, `validator_rules.rs` — validation rules and their issues.
  - `package.rs`, `package_write.rs`, `part_map.rs`, `paths.rs`, `content_types.rs`,
    `relationship.rs` — the parts of a package, how they are collected while reading an
    archive and which files writing one produces.
  - `namespaces.rs`, `used_namespaces.rs`, `xml_namespaces.rs`, `xml_scan.rs` — the
    3MF namespaces, those a model uses, and the filtering of namespace declarations on a
    model part's `model` element.
  - `thumbnail_scene.rs` — which meshes a thumbnail shows: those that the build items
    reach, directly or through components, and how each was reached.
  - `laws.rs` — properties that relate several functions, stated and proved as proof
    functions.
- `tests/` — tests of the library.
- `app/` — reading and writing the ZIP archive of a package, the XML of its content
  types and relationship parts, and thumbnail rendering. The XML of a model part is
  read and written by a `ModelCodec` that the caller supplies; none comes with the
  crate.
