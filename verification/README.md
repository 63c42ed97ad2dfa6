# kaju

Interpretador da linguagem kaju, uma linguagem de programação em português.

## Organização

- `src/` — a biblioteca, verificada com Verus:
  - `texto` — operações sobre textos e caracteres;
  - `token`, `lexer` — tokens e o analisador léxico, com a especificação do
    que ele reconhece (`lexico`: conteúdo e posição de cada token, ou o código
    e a posição do primeiro erro; os textos de cada erro léxico; linha e
    coluna contadas pelas quebras de linha);
  - `ast`, `parser` — a árvore sintática e o analisador sintático: a forma
    exata da árvore para as expressões e comandos comuns (a gramática de
    `expr_simples` e `cmd_simples`: precedência e associatividade dos
    operadores, atribuições compostas, chamadas, coleções, funções anônimas
    com parâmetros e corpo, blocos de controle, `tente`, `escolha`, funções
    e classes com seus membros); os textos interpolados ficam fora dessa
    gramática e têm o seu contrato no primário (`$"..."`: a soma dos
    trechos, aceita sempre que cada trecho de código é analisável, e K018
    no texto quando um trecho falha); controle de fluxo bem colocado, os erros certos de um
    programa (`erros_conhecidos`: um por declaração que falha, com a
    recuperação até a próxima declaração) e códigos sempre explicados;
  - `erros` — diagnósticos, sua renderização, distância de edição e sugestões
    de nomes;
  - `explicacoes` — os textos de `kaju explique`, cada código com o seu;
  - `ambiente` — os escopos da execução, com as leis de leitura, escrita e
    constantes;
  - `numeros` — potência inteira e o passo do gerador pseudoaleatório;
  - `inteiros` — os operadores entre inteiros (estouro, divisão por zero,
    resto, bits e deslocamentos);
  - `metodos_texto` — `divida`, `junte`, `substitua`, `indiceDe`, `fatie` e
    companhia, com a lei de que `junte` desfaz `divida`;
  - `programa` — do texto-fonte à árvore, e as decisões da linha de comando
    (qual comando, o relatório de erros, as funções e o resumo de `kaju teste`) e do REPL
    (quando uma entrada está completa, o que fazer a cada linha lida).
- `app/` — o programa `kaju`: linha de comando, REPL, leitura de arquivos e o
  interpretador que executa a árvore (valores numéricos decimais são `f64`).
- `tests/` — testes da biblioteca.
