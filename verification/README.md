# zerotier_service

The verified core of the ZeroTier service's secret container and of its
`cert` command:

- `src/secret.rs`: `Secret<L>`, a fixed-size byte container that is cleared
  when dropped, with copying, prefix and comparison operations.
- `src/text.rs`: decimal and padded hexadecimal renderings of integers, and
  the whitespace trimming, UTF-8 decoding and string comparison they rest on.
- `src/codec.rs`: hexadecimal decoding (the `hex` crate) and URI checking
  (the `hyper` crate).
- `src/csr.rs`: the certificate signing request dialogue as a state machine
  from a session and the answer to its last request to the next request.
- `src/cert_text.rs`: the human-readable rendering of a certificate.
- `src/command.rs`: which `cert` subcommand a command line selects.

`app/` holds the command line around it: argument parsing, prompts, files,
and the ZeroTier core types that render identities and create requests.
