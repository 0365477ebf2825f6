# easy_lang

The verified core of Easy Lang, a web service for learning languages with
DeepL and a chat model: users keep dictionaries of sentences, save their
translations and export their dictionaries.

- `src/` is the library, proved with Verus:
  - `text`: decimal rendering, Unicode white space, trimming, lines and words;
  - `migrations`: the schema migrations and the splitting of a migration
    script into statements (with the proof that no text is lost);
  - `models`: the stored records, the queries built as text and what is made
    of rows and counts;
  - `prompts`: the requests sent to the chat model;
  - `controllers`: the handlers' decisions (dictionary choice, pages,
    redirects, keeping the export position valid);
  - `translate_module`: DeepL languages by name;
  - `base`: the local date and time as text;
  - `globals`: the application error.
- `app/` is the server around it: actix-web routing, sqlx, the OpenAI and
  DeepL clients, templates and file access.
- `tests/` runs the library on concrete values.
