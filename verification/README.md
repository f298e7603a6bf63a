# migrate_to_uv

The verified core of a tool that migrates Python projects from pip, pip-tools or Poetry to uv.

- `src/` (verified with Verus): the options of a migration (`options`), the errors it collects
  and what is reported of them (`errors`), the PEP 621 `[project]` section and how the migrated
  section is merged into an existing one (`project`), the choice of the build backend and of the
  `[build-system]` section (`build_backend`, with PEP 440 versions in `pep440`), the pip and
  Poetry converters (`pip`, `poetry`): what they read and delete, the constraints they keep from
  lock files, and the parts of the migrated `pyproject.toml` they build (the build system and
  build backend for Poetry, the `[project]` section, the development dependencies for pip, the
  `package` and `constraint-dependencies` settings of `[tool.uv]`, and the document read, with
  `[tool.poetry]` removed for Poetry); `pyproject.toml` documents parsed and edited with
  `toml_edit`, table by table (`pyproject_doc`), the course of a migration and its messages
  (`migration`), terminal styling (`style`) and string utilities (`text`).
- `app/`: command-line values with `clap`, the reading of `poetry.lock` with `serde`, the errors
  collected during a run, logging, and a `Converter` trait that runs a migration on the file
  system, step by step, as the library decides.
- `tests/`: tests of the library.

The library does not write the new sections into the document, nor format it: it hands over
the content listed above. Of Poetry's `[tool.poetry]`, it maps the name, version, license, plugins
and package mode; the conversion of its dependencies (the Python requirement among them),
extras, dependency groups, sources, readme, authors, URLs, classifiers and scripts is not part
of it.
