# firms_api

A catalogue of firms (categories, cities, firms, reviews, prices, pages)
served over HTTP, and the crawlers and processing jobs that fill it.

- `src/` is the verified library, checked by Verus: the records the service
  returns and how they are filtered, paging, errors and roles, who a request
  comes from (its token and the token's subject), the values stored for a
  new user (its Argon2 password hash), the progress of a crawl over the
  firms (where it resumes, which firm it visits next, what its counter
  stores, and the checks it makes on each firm, in order), the rules the crawlers follow to read the map service's pages, the crawl counters, and
  the text of a request for a generated review and what is stored of the
  answer. Text handling is done on `Seq<char>` models with proved
  operations (search, replace, split, join, decimal formatting and parsing).
- `tests/` runs the library on concrete values.
- `app/` is the service around it: the actix-web handlers, the database
  queries (sqlx), the WebDriver sessions of the crawlers
  and the calls to the language model.
