# nucleo

O núcleo do Mutirão — um orquestrador de agentes num canvas — escrito em
Verus: as regras provadas, e a borda que as põe para rodar.

- `src/` é a biblioteca verificada. Cada função pública tem contrato
  (`requires`/`ensures`) sobre modelos matemáticos (`Seq`, `Map`, `Set`,
  `ValorJson`), e as leis que valem entre funções estão como `proof fn`
  públicas (`lei_*`).
  - `orquestrador`: o `Orquestrador` (um turno por vez por nó, fila em ordem
    de chegada, a ponte entre nós com teto de saltos, orçamento e detecção de
    espera cruzada, cancelamento), `Esperas`, `Filas`.
  - `barramento`: o que pede card, o que aceita "não perguntar de novo", o
    veredito para o hook, as esperas por decisão.
  - `mcp`, `ferramentas`: o servidor MCP (abrir, despachar, responder) e o
    catálogo, com a leitura de cada chamada.
  - `cli`: a tradução do stream JSONL da CLI do agente e os argumentos de cada
    turno.
  - `papeis`, `partituras`, `ensaios`, `git`, `arquivos`, `processo`, `db`,
    `modelo`, `erro`: papéis e autonomia, times salvos, rascunhos, leitura da
    saída do git, escopo de arquivos, busca no PATH, regras do banco, tipos.
  - `json`, `texto`, `tabela`: o que o núcleo lê e escreve com o
    `serde_json` (por invólucros cujo contrato diz o que a chamada faz), texto
    como `Seq<char>`, e uma tabela pequena sem chave repetida.
- `tests/` exercita a biblioteca com os crates de fora ligados.
- `app/` é a borda em Rust comum: SQLite, disco, processos, HTTP, threads e o
  que é ponto flutuante (posição no canvas, preço).
