# customai

The verified core of a Telegram bot that answers with OpenAI chat completions.

- `src/` is the library, verified with Verus:
  - `text`: searching, replacing and trimming on characters;
  - `html`: turning an AI reply into the HTML that Telegram accepts;
  - `string_map`: string tables read from JSON;
  - `config`: loading the prompt and locale tables, and the settings;
  - `bot`: what the bot answers to a message or a pressed button;
  - `keyboard`: the rows of buttons under the welcome message;
  - `tracker`: the messages the bot sent in each chat;
  - `client::openai`: the conversation kept with the AI in each chat.
- `app/` is the program around it: reading the environment and files, the
  Telegram dispatcher and the OpenAI requests.
