# gemini_types

Request and response types of the Gemini generative-language API, verified with Verus.

- `src/types.rs`: the messages, with the display of a response, the text part
  constructor and the defaults, each with its contract.
- `src/wire.rs`: the names that enumeration values take on the JSON wire, how
  they are read back, and the laws that tie the two together and to the
  renaming rule of each enumeration.
- `src/json.rs`: the declaration of `serde_json::Value`, carried through unread.
- `app/`: copies of the types that carry serde's traits, with conversions both
  ways; enumerations are written and read through `src/wire.rs`.
