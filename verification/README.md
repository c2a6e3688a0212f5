# forge_core

The verified core of an on-device inference runtime built on llama.cpp.

- `src/` is the library, verified with Verus: memory budgets, batch
  assembly, context shifting, image validation and decoding, incremental
  UTF-8 decoding of generated text, backend reference counting, the integer
  side of the audio vocoder, the checks of the C interface, and the
  generation loop as a state machine (`engine.rs`). The public functions
  state their results in their contracts; where an outside crate decides
  (image decoding), the contract states what holds of every outcome it can
  give. The laws that relate several operations are public proof
  functions (`lemma_*`).
- `app/` is the native runtime around it: the llama.cpp and mtmd
  declarations, the RAII handles, the sampler chain and the vocoder's
  floating-point arithmetic, the engine that performs the actions the state
  machine decides on, and the C interface.
- `tests/` runs the library on concrete values.
