# eredu-architectures

Backend-neutral architecture policy for Gemma 4 models and for the image, video, and audio
processors of Gemma 4, Qwen, Inkling, and Muse-Glimmer models. Nothing here touches tensors: the
crate decides what a checkpoint must hold, how layers are scheduled and staged, and how media is
resized, sampled, and framed. A backend executes those decisions.

## Layout

`src/` is the library. Its functions are verified with Verus, and their contracts say what they
return, down to the text of each error. Two refusals keep their words open: that of an empty sliding
window, and that of a null where a number is expected. Two small wrappers are trusted instead of
verified: `text::debug_text`, which quotes a key as `std` does, and `errors::null_number`, which
makes a `serde_json` failure.

| Modules | Subject |
| --- | --- |
| `schedule`, `normalize`, `gguf_config`, `config` | text configuration and its layer schedule |
| `pipeline` | balanced pipeline stages |
| `fingerprint`, `order` | architecture and prompt-cache identity |
| `graph` | component graph and mutable state |
| `formats`, `family` | weight encodings |
| `plan`, `geometry`, `gguf_plan`, `projector`, `weight_names` | GGUF catalogs and names |
| `safetensors`, `safetensors_draft`, `safetensors_text`, `safetensors_media`, `safetensors_plan` | SafeTensors catalog |
| `experts`, `artifact` | derived expert weights, composite artifacts |
| `media`, `media_metadata`, `qwen`, `gemma_processor`, `inkling`, `muse` | processor policy |
| `artifact_plan` | family and processor state retained by inspection |
| `schedule_laws`, `name_laws`, `weight_name_laws`, `plan_laws` | what holds across functions |

`app/` is ordinary Rust around the library: JSON decoding, floating-point quotients, and the traits
through which sibling crates provide rotary algorithms, weight formats, recipe resolution, and the
admission of finished plans.

`tests/` runs the library on concrete values.

## Conventions

Floating-point numbers are held by their bits (`Float32`, `Float64`). Where a plan needs a quotient
or a square root, the caller computes it and hands it over as a `...Steps` value; the library
decides what follows from it.

A decoded document arrives as `Decoded<T>`, so that a decoding failure takes its place among the
other errors. Names are kept in `StringMap` and `NameSet`, which preserve insertion order.

What a message says is part of a contract: `Fault` is the view of an error.
