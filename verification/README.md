# nexcore_education_machine

A general-purpose education engine: a five-phase learning state machine
(`Discover -> Extract -> Practice -> Assess -> Master`, with a return to
`Discover` from any phase), subjects with ordered curricula, lessons made of
ordered steps, assessments, and the bookkeeping of a learner's enrollments.

Layout:

- `src/` — the verified library (Verus). Every function carries a contract,
  and the rules of the state machine, the numbering of curricula and lesson
  steps, the tally of an assessment, enrollment without duplicates and the
  counting of verdicts are proved there. Values that the engine only carries
  (timestamps, difficulty measures) are type parameters.
- `app/` — ordinary Rust around the library: serializable (serde) forms of the
  library's types, and everything that computes with floating-point numbers —
  mastery levels and difficulties, the Bayesian prior `P(M|D) = α / (α + β)`,
  verdict and competency thresholds, learners and their enrollments, and the
  spaced-repetition scheduler `R(t) = e^(-t/S)`. These call into the library
  for lookups, tallies, transitions and counts.
- `tests/` — tests of the library on concrete values.
