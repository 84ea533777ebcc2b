# tobira-lti

The LTI 1.3 tool side of Tobira: learning platforms such as Moodle or Canvas
launch their users into it. The decisions are made by a library that is
verified with Verus; requests, responses, the database and the network are
around it.

- `src/`: the library.
  - `login`, `launch`, `claims`, `target`: from the login that a platform
    initiates to the page that the user lands on.
  - `deeplink`: the selection of content for the platform to link to.
  - `tool_key`, `platform_keys`: the key of the tool and those of the platforms.
  - `config`, `registration`, `listing`: configured and registered platforms.
  - `form`, `http`, `http_url`, `json`, `base64url`, `token`, `store`, `text`:
    what the others are built from.
- `app/`: the endpoints, the database queries and the commands.
- `tests/`: tests of the library.
