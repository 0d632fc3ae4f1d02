# title_finder

Finds the job title of a person at a company.

A lookup is answered from curated titles, from a search already run for that
person, or from a new web search. The hits of a new search are checked for
whether they answer the question, and mined for a title only when the check is
confident. Whose title it is, is decided by the person mentioned nearest to it.
Every request sent is logged, and the log is read back at the next start.

`src/` is the library, verified with Verus. It does no I/O: it says what is to be
sent, saved or run next, and takes back how that went. `app/` is the HTTP
service around it. `tests/` runs the library on concrete values.

| Module | What it holds |
| --- | --- |
| `text` | characters, trimming, splitting, joining, lower case |
| `score` | scores and probabilities, compared by their IEEE 754 bits |
| `ids` | identifiers and the clock |
| `models` | what is stored, asked and answered |
| `search` | the search provider: question, request, response |
| `verify` | the answer check: text, question, verdict |
| `ner` | titles and people found in hits, and whose title each is |
| `store` | curated titles, stored searches, the request log |
| `handlers` | the endpoints, and a lookup step by step |
| `config` | port, paths and defaults |
| `error` | errors as responses |
| `laws` | what holds of the library as a whole |

Each value has a view that says what it holds in mathematical terms, and the
contracts are stated over these views. A function whose result rests on chance or
the clock has a twin that takes the identifier or the time as an argument and
has an exact contract.

The functions marked `external_body` call `uuid`, `chrono` and a few functions
of the standard library; their contracts are trusted, and their doc comments say
what is claimed.

The service needs `SERP_API_KEY` and `JEV_API_KEY`; `PORT`, `REQUEST_LOG` and
`GLINER_MODEL_DIR` are optional.
