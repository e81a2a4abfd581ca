# rust_app

The domain and service logic of a web application template for AWS (a
GraphQL API, background tasks run as Lambda functions, a relational store,
object storage and identity providers), written in Verus with its behaviour
stated in `requires`/`ensures` contracts and proved.

## Layout

- `src/` — the verified library.
  - `errors` — application errors (`Kind`, `AppError`) and their text.
  - `text` — decimal digits, padding, integer parsing as Rust's `FromStr`
    does, splitting and prefixes.
  - `domain` — identifiers (random, base 62), users, orders and order lines,
    and value types: asset keys, e-mail addresses, image sizes, pagers,
    length-restricted names, task payloads, dates, months and instants.
  - `graphql` — request authorization (header text, bearer tokens, the
    identity a request runs as), the queries and mutations of the API as
    functions from inputs and lookups to answers, the output types, and the
    grouping of order lines by order.
  - `infra` — what the adapters decide: database rows and their failures,
    storage answers, CDN URLs, identity-provider answers, key sets and token
    claims, mail failures, error-tracker events, function invocation results.
  - `env`, `jwt`, `util`, `adapter` — configuration, signed verification
    tokens, elapsed time in words, principals and the error notifier.
- `tests/` — tests of the library on concrete values.
- `app/` — the Lambda task function around the library: environment, logging,
  the network services it talks to, JSON payloads and error reporting.
