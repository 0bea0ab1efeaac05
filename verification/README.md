# animus-subject-linear

Linear issues as Animus subjects: a verified library and the stdio plugin
around it.

## Layout

- `src/` is the library, written in Verus. Every function has a contract.
  - `backend` is the backend as a state machine. A call answers with a step:
    send this request, decode these workflow states, or done.
  - `client` makes requests and reads responses.
  - `issue` reads issues as subjects; `input` writes filters and the inputs of
    mutations.
  - `status_map` maps workflow states to statuses and back.
  - `config` is the configuration.
  - `subject`, `json`, `timestamp`, `string_map` and `text` are the data types.
  - `laws` states what holds of the backend as a whole.
- `tests/` runs the library.
- `app/` is the plugin: it talks HTTP, reads the environment, and converts
  between the library's types and those of the plugin protocol.

## Environment

| Variable            | Meaning                                                        |
|---------------------|----------------------------------------------------------------|
| `LINEAR_API_TOKEN`  | Personal API token. The schema and the health check work without it. |
| `LINEAR_TEAM_ID`    | Team that queries are about. Needed to discover its workflow.  |
| `LINEAR_PROJECT_ID` | Project that new issues go into.                               |
| `LINEAR_API_URL`    | GraphQL endpoint, if not Linear's own.                         |
| `LINEAR_STATUS_MAP` | JSON object from state names to statuses.                      |

## Statuses

A workflow state has the status that `LINEAR_STATUS_MAP` gives its name, else
the one of its type: `triage`, `backlog` and `unstarted` are `Ready`, `started`
is `InProgress`, `completed` is `Done`, `cancelled` is `Cancelled`, and any
other type is `Ready`. A status is written as the state with the lowest
position among those that have it.

## What is taken on trust

The contracts of a few small functions are believed without proof; each names
the outside function that it calls. They read and write JSON (`serde_json`),
read and write timestamps (`chrono`), hold the token and show HTTP
statuses (`reqwest`), and show a string as `{:?}` does.
