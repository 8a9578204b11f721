# gb_postcode

British postcode types and parsing, verified with Verus.

A postcode such as `BD1 1AF` is read into its outward code (area `BD`, district `1`)
and its inward code (sector `1`, unit `AF`). Every parser states exactly what it
returns, and every reason it refuses a text, over the characters of its input.

- `src/lib.rs`: `PostCode` and `PostcodeParseError`; trimming, splitting at the space,
  and the laws on parsed postcodes.
- `src/outward/`: `OutwardCode`, with `areas.rs` (`PostCodeArea`, the table of area
  codes) and `district.rs` (`PostCodeDistrict`).
- `src/inward.rs`: `InwardCode`.
- `src/digit.rs`: `Digit`, a number `0..=9`.
- `src/nearby.rs`: the postcodes tried, in order, when one has no location.
- `src/text.rs`: UTF-8 byte lengths, decimal numbers, and the calls into `char` and
  `str` that the parsers make.
- `app/`: serde forms of the types, error types with messages (thiserror), and the
  geolocation table read from postcard data.
