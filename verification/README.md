# llm_bench_core

The verified core of an LLM serving benchmark.

- `src/config.rs`: the benchmark configuration, its defaults and the rules a
  configuration must satisfy (`Config::validate`), with the error messages.
- `src/binary64.rs`: binary64 values held by their IEEE 754 encoding, with the
  comparisons the rules use.
- `src/synthetic.rs`: the distribution of synthetic prompt lengths.
- `src/prompt.rs`: prefixes, filler text and the step-by-step building of a
  prompt with an exact token count (`PromptJob`), where the caller counts
  tokens.
- `src/text.rs`: decimal rendering of integers.
- `app/`: TOML loading with serde, float-valued defaults, Gaussian sampling and
  the workload generator that runs prompt jobs against a tokenizer.
