# corepc-types

Types returned by the JSON-RPC API of Bitcoin Core, and their conversions into strongly typed
values, with the conversions verified by Verus.

## Layout

- `src/` is the verified library.
  - `v17`, `v19`, `v20`, `v22`, `v23`, `v25`, `v28`, `v29`, `v30`: the types shaped like the JSON
    that each version of Core returns, and their `into_model` conversions. Each conversion states
    on which inputs it succeeds, which error it reports for each failing input (the first failing
    field, in the order of conversion) and what the model value holds.
  - `model`: the version nonspecific types. Hashes are held as their 32 bytes in internal order,
    scripts and filters as bytes, proof of work values as big endian bytes.
  - `numeric`: `to_u32` and `NumericError`, with the exact text of its messages.
  - `compact_size`: `compact_size_decode`, with the encoding laws (minimal encodings read back,
    and are unique).
  - `hex`, `chain`, `address`, `keys`, `consensus`, `amount`, `script`: the calls into `bitcoin`,
    each behind a small trusted function whose contract says what the call returns.
- `app/` holds the `serde` copies of the version specific types (converting into and from the
  library types), the reading of Core's floating point BTC numbers, and the path helpers of the
  verify tool.
- `tests/` runs the library on concrete values.

Values that Core writes as floating point numbers are type parameters of the library types; the
conversions that read them as amounts or fee rates take what `bitcoin` read
(`Result<Amount, ParseAmountError>`, `Result<Option<FeeRate>, ParseAmountError>`).
