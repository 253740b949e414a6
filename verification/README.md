# shared

The application layer shared by the MLHub services: the decisions by which
models, datasets, artifacts, agents, deployments, endpoints, principals and
identity providers are looked up, created, concealed, submitted and
reconciled. Each decision in `src/` is stated as a contract and proved with
Verus. What the entities' own rules decide (registering an agent against
the record it names, building a deployment from a strategy, or which strategies suit an
external model) is supplied by the caller of `app/`, and the calls
to storage, brokers and platforms are made there too. Creating agent records
and registering datasets rest wholly on those rules and have no flow here.

## Layout

- `src/` is the verified library.
  - `shared_kernel.rs`: request contexts, scopes and visibility.
  - `domain.rs`: the entities as the application reads and writes them.
  - `text.rs`: decimal and UUID text, and the UUID generator.
  - `application/retries.rs`: retry policies, their delays and the state of
    a retried operation.
  - `application/ports/`: the errors and values that cross the ports.
  - `application/services/`: each service's decisions, taking what its ports
    returned and saying what follows.
  - `application/workflows/`: the desired state workflow and the vocabulary
    of reconciliation.
  - `bootstrap.rs`: the context shared by the applications.
- `app/` holds what runs around the library: the asynchronous ports, the
  retry loop that sleeps between attempts, and the flows that call the ports
  and hand their results to the library's decisions.
- `tests/` runs the library on concrete cases.
