# dynamo_serving

The core of a serving front end for language models, written in Verus.

- `src/http`: the account of requests and their responses, and the metrics that
  come of it. Counters and gauges are kept by the Prometheus client; histograms
  are fed with the observations that the library hands out.
- `src/compute`: a pool of threads for CPU-bound work, its configuration and its
  metrics, and the decisions on where a task runs.
- `src/entrypoint`: the steps that bring the service up, and the updates of
  models that come and go.
- `src/protocols`: the options of a chat completion request, and the order in
  which they are checked.
- `src/text.rs`, `src/time.rs`, `src/calls.rs`: text, the clock, and calls whose
  answer no contract can give.
- `app`: what needs the asynchronous runtime, shared state, floating-point
  numbers, HTTP or the environment.

Every public function of the library states what it returns or changes. Where
the clock, a registry or a semaphore decides, it states what was asked and what
becomes of the answer. The public proof functions state what holds across several
of them. What is believed of an outside crate is said at the function that calls
it.
